use helixdb_explorer::stats::{
    hnsw_stats, validate_helix_workspace, DBInfo, DBStat, HnswStat, WorkspaceError,
};

fn db(entries: usize) -> DBStat {
    DBStat { entries, psize: 4096, depth: 1, branch_pages: 0, leaf_pages: 1, overflow_pages: 0 }
}

#[test]
fn a_directory_with_a_helix_toml_is_a_workspace() {
    assert_eq!(validate_helix_workspace("/w", true, true), Ok(true));
}

#[test]
fn a_missing_path_comes_before_a_missing_helix_toml() {
    assert_eq!(
        validate_helix_workspace("/nowhere", false, false),
        Err(WorkspaceError::PathMissing { path: "/nowhere".to_string() })
    );
    assert_eq!(
        validate_helix_workspace("/nowhere", false, true),
        Err(WorkspaceError::PathMissing { path: "/nowhere".to_string() })
    );
    assert_eq!(validate_helix_workspace("/w", true, false), Err(WorkspaceError::NoHelixToml));
}

#[test]
fn vector_index_statistics_come_from_three_databases() {
    let dbs = vec![
        ("nodes".to_string(), db(10)),
        ("vectors".to_string(), db(4)),
        ("hnsw_out_nodes".to_string(), db(7)),
        ("vectors".to_string(), db(5)),
    ];
    assert_eq!(
        hnsw_stats(&dbs),
        Some(HnswStat { vector_count: 5, vector_data_count: 0, out_nodes_count: 7 })
    );
    assert_eq!(hnsw_stats(&vec![("nodes".to_string(), db(10))]), None);
    assert_eq!(hnsw_stats(&vec![]), None);
    assert_eq!(
        hnsw_stats(&vec![("vector_data".to_string(), db(2))]),
        Some(HnswStat { vector_count: 0, vector_data_count: 2, out_nodes_count: 0 })
    );
}

#[test]
fn storage_information_is_plain_data() {
    let info = DBInfo { map_size: 1, last_pgno: 2, last_txnid: 3, max_readers: 4, num_readers: 5 };
    assert_eq!(info, info.clone());
    assert_eq!(info.max_readers, 4);
}
