//! What a local database directory reports about itself.

use vstd::prelude::*;

verus! {

/// The page statistics of one named database.
#[derive(Debug, Clone, Copy, PartialEq, Eq, Structural)]
pub struct DBStat {
    pub entries: usize,
    pub psize: u32,
    pub depth: u32,
    pub branch_pages: usize,
    pub leaf_pages: usize,
    pub overflow_pages: usize,
}

/// The sizes of the three databases of the vector index.
#[derive(Debug, Clone, Copy, PartialEq, Eq, Structural)]
pub struct HnswStat {
    pub vector_count: usize,
    pub vector_data_count: usize,
    pub out_nodes_count: usize,
}

/// What the storage reports of itself as a whole.
#[derive(Debug, Clone, Copy, PartialEq, Eq, Structural)]
pub struct DBInfo {
    pub map_size: usize,
    pub last_pgno: usize,
    pub last_txnid: usize,
    pub max_readers: u32,
    pub num_readers: u32,
}

/// Why a directory is no workspace.
#[derive(Debug, PartialEq)]
pub enum WorkspaceError {
    /// There is nothing at the path.
    PathMissing { path: String },
    /// The directory holds no `helix.toml`.
    NoHelixToml,
}

/// The mathematical value of a [`WorkspaceError`].
pub enum WorkspaceErrorView {
    PathMissing { path: Seq<char> },
    NoHelixToml,
}

impl View for WorkspaceError {
    type V = WorkspaceErrorView;

    open spec fn view(&self) -> WorkspaceErrorView {
        match *self {
            WorkspaceError::PathMissing { path } => WorkspaceErrorView::PathMissing { path: path@ },
            WorkspaceError::NoHelixToml => WorkspaceErrorView::NoHelixToml,
        }
    }
}

/// Judges a directory from what was found on disk: it is a workspace when it
/// exists and holds a `helix.toml`. A missing path is reported before a
/// missing `helix.toml`.
pub fn validate_helix_workspace(path: &str, path_exists: bool, has_helix_toml: bool) -> (r: Result<
    bool,
    WorkspaceError,
>)
    ensures
        match r {
            Ok(valid) => valid && path_exists && has_helix_toml,
            Err(e) => e@ == if !path_exists {
                WorkspaceErrorView::PathMissing { path: path@ }
            } else {
                WorkspaceErrorView::NoHelixToml
            } && !(path_exists && has_helix_toml),
        },
{
    if !path_exists {
        return Err(WorkspaceError::PathMissing { path: String::from_str(path) });
    }
    if has_helix_toml {
        Ok(true)
    } else {
        Err(WorkspaceError::NoHelixToml)
    }
}

/// The statistics of the vector index among the named databases: the entry
/// counts of `vectors`, `vector_data` and `hnsw_out_nodes`, each that of the
/// last database of that name and zero where there is none; nothing where
/// none of the three exists.
pub open spec fn hnsw_of(dbs: Seq<(Seq<char>, DBStat)>) -> Option<HnswStat>
    decreases dbs.len(),
{
    if dbs.len() == 0 {
        None
    } else {
        let before = match hnsw_of(dbs.drop_last()) {
            Some(h) => h,
            None => HnswStat { vector_count: 0, vector_data_count: 0, out_nodes_count: 0 },
        };
        let name = dbs.last().0;
        let entries = dbs.last().1.entries;
        if name == "vectors"@ {
            Some(HnswStat { vector_count: entries, ..before })
        } else if name == "vector_data"@ {
            Some(HnswStat { vector_data_count: entries, ..before })
        } else if name == "hnsw_out_nodes"@ {
            Some(HnswStat { out_nodes_count: entries, ..before })
        } else {
            hnsw_of(dbs.drop_last())
        }
    }
}

/// The names and statistics of a list of databases, item by item.
pub open spec fn dbs_view(dbs: Seq<(String, DBStat)>) -> Seq<(Seq<char>, DBStat)> {
    Seq::new(dbs.len(), |i: int| (dbs[i].0@, dbs[i].1))
}

/// Gathers the statistics of the vector index from the named databases.
pub fn hnsw_stats(dbs: &Vec<(String, DBStat)>) -> (r: Option<HnswStat>)
    ensures
        r == hnsw_of(dbs_view(dbs@)),
{
    let ghost all = dbs_view(dbs@);
    let mut found: Option<HnswStat> = None;
    let mut i: usize = 0;
    assert(all.take(0) =~= Seq::empty());
    while i < dbs.len()
        invariant
            i <= dbs.len(),
            all == dbs_view(dbs@),
            found == hnsw_of(all.take(i as int)),
        decreases dbs.len() - i,
    {
        proof {
            assert(all.take(i + 1).drop_last() =~= all.take(i as int));
            assert(all.take(i + 1).last() == (dbs[i as int].0@, dbs[i as int].1));
        }
        let before = match found {
            Some(h) => h,
            None => HnswStat { vector_count: 0, vector_data_count: 0, out_nodes_count: 0 },
        };
        let name = dbs[i].0.as_str();
        let entries = dbs[i].1.entries;
        if crate::text::str_equal(name, "vectors") {
            found = Some(HnswStat { vector_count: entries, ..before });
        } else if crate::text::str_equal(name, "vector_data") {
            found = Some(HnswStat { vector_data_count: entries, ..before });
        } else if crate::text::str_equal(name, "hnsw_out_nodes") {
            found = Some(HnswStat { out_nodes_count: entries, ..before });
        }
        i += 1;
    }
    proof {
        assert(all.take(i as int) =~= all);
    }
    found
}

} // verus!
