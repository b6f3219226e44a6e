use playshelf::igdb::IGDBManager;

#[test]
fn test_format_ids() {
    let manager = IGDBManager::new("test_client".to_string(), "test_token".to_string());

    // Test with multiple IDs
    let ids = vec![1, 2, 3, 4];
    assert_eq!(manager.format_ids(&ids), "(1,2,3,4)");

    // Test with single ID
    let ids = vec![42];
    assert_eq!(manager.format_ids(&ids), "(42)");

    // Test with empty vector
    let ids: Vec<u64> = vec![];
    assert_eq!(manager.format_ids(&ids), "");
}
