use credence::accounts::AccountId;
use credence::slash_history::{SlashHistory, MAX_QUERY_LIMIT};

fn history_with(n: u32) -> SlashHistory {
    let mut h = SlashHistory::new(AccountId::new("GIDENTITY".to_string()));
    for i in 0..n {
        h.append_slash_history((i as i128) + 1, "test".to_string(), 0, (i as i128) + 1);
    }
    h
}

#[test]
fn test_slash_history_page_empty_identity() {
    let h = history_with(0);
    let page = h.get_slash_history_page(0, 10);
    assert_eq!(page.len(), 0);
}

#[test]
fn test_slash_history_page_single_page() {
    let h = history_with(5);
    let page = h.get_slash_history_page(0, 10);
    assert_eq!(page.len(), 5, "all 5 records should fit in one page");
    for i in 0..5u32 {
        let record = &page[i as usize];
        assert_eq!(record.slash_amount, (i as i128) + 1);
    }
}

#[test]
fn test_slash_history_page_multipage_walk() {
    let n = 11u32;
    let h = history_with(n);
    let mut collected: Vec<i128> = Vec::new();
    let mut offset = 0u32;
    let page_size = 4u32;
    loop {
        let page = h.get_slash_history_page(offset, page_size);
        if page.is_empty() {
            break;
        }
        for record in &page {
            collected.push(record.slash_amount);
        }
        offset += page.len() as u32;
    }
    assert_eq!(collected.len(), n as usize);
    for (i, amt) in collected.iter().enumerate() {
        assert_eq!(*amt, (i as i128) + 1);
    }
}

#[test]
fn test_slash_history_page_limit_clamped() {
    let n = MAX_QUERY_LIMIT + 5;
    let h = history_with(n);
    let page = h.get_slash_history_page(0, MAX_QUERY_LIMIT + 50);
    assert_eq!(page.len() as u32, MAX_QUERY_LIMIT, "limit must be clamped to MAX_QUERY_LIMIT");
}

#[test]
fn test_slash_history_page_offset_beyond_count_returns_empty() {
    let h = history_with(3);
    let page = h.get_slash_history_page(3, 10);
    assert_eq!(page.len(), 0);
    let page = h.get_slash_history_page(100, 10);
    assert_eq!(page.len(), 0);
}

#[test]
fn slash_history_limit_zero_uses_cap() {
    let h = history_with(MAX_QUERY_LIMIT + 5);
    assert_eq!(h.get_slash_history_page(0, 0).len() as u32, MAX_QUERY_LIMIT);
    assert_eq!(h.get_slash_history_page(200, 0).len(), 5);
}

#[test]
fn slash_history_count_record_and_totals() {
    let mut h = history_with(4);
    assert_eq!(h.get_slash_count(), 4);
    h.append_slash_history(10, "fraud".to_string(), 77, 20);
    assert_eq!(h.get_slash_count(), 5);
    let r = h.get_slash_record(4);
    assert_eq!(r.slash_amount, 10);
    assert_eq!(r.reason, "fraud");
    assert_eq!(r.timestamp, 77);
    assert_eq!(r.total_slashed_after, 20);
    assert_eq!(r.identity, AccountId::new("GIDENTITY".to_string()));
    assert_eq!(h.get_slash_history().len(), 5);
    assert_eq!(h.get_total_slashed_from_history(), 1 + 2 + 3 + 4 + 10);
}

#[test]
fn slash_history_restore_rejects_foreign_records() {
    let mine = history_with(2);
    let records = mine.get_slash_history();
    let back = SlashHistory::restore(AccountId::new("GIDENTITY".to_string()), records)
        .expect("own records restore");
    assert_eq!(back.get_slash_count(), 2);
    let records = mine.get_slash_history();
    assert!(SlashHistory::restore(AccountId::new("GOTHER".to_string()), records).is_none());
}
