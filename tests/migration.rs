use library_config::backfill::{size_updates, LegacySizeRow, SIZE_PAGE_LIMIT};
use library_config::config::{LibraryConfig, SanitisedLibraryConfig};
use library_config::encoding::u64_be_bytes;
use library_config::migration::{
    accepts_event, advance, rule_updates, start_step, Action, Event, MigrationContext,
    MigrationError, Phase,
};
use library_config::run::{finish_run, pending_versions};
use library_config::steps::{step_for, StepKind, CURRENT_VERSION};
use serde_json::Value;

fn ctx() -> MigrationContext {
    MigrationContext {
        node_id: 0x0123_4567_89ab_cdef_0011_2233_4455_6677,
        peer_id: "peer-1".to_string(),
    }
}

fn doc_at(version: u64) -> serde_json::Map<String, Value> {
    let mut doc = serde_json::Map::new();
    doc.insert("version".to_string(), Value::from(version));
    doc
}

#[test]
fn step_table_is_dense() {
    for v in 0..=CURRENT_VERSION {
        assert!(step_for(v).is_some(), "missing step for {v}");
    }
    assert_eq!(step_for(CURRENT_VERSION + 1), None);
    assert_eq!(step_for(u32::MAX), None);
    assert_eq!(step_for(0), Some(StepKind::Noop));
    assert_eq!(step_for(4), Some(StepKind::Noop));
    assert_eq!(step_for(5), Some(StepKind::BackfillSizes));
}

#[test]
fn pending_versions_run_up_to_current() {
    assert_eq!(pending_versions(0), vec![1, 2, 3, 4, 5]);
    assert_eq!(pending_versions(3), vec![4, 5]);
    assert!(pending_versions(CURRENT_VERSION).is_empty());
}

#[test]
fn noop_steps_finish_at_once() {
    let (phase, action) = start_step(4, &ctx());
    assert_eq!(phase, Phase::Complete);
    assert!(matches!(action, Action::Done));
}

#[test]
fn rule_step_gives_fixed_ids() {
    let rules = rule_updates();
    let names: Vec<&str> = rules.iter().map(|r| r.name.as_str()).collect();
    assert_eq!(names, vec!["No OS protected", "No Hidden", "No Git", "Only Images"]);
    for (i, rule) in rules.iter().enumerate() {
        let mut expected = vec![0u8; 16];
        expected[15] = i as u8;
        assert_eq!(rule.pub_id, expected);
    }
}

#[test]
fn version_zero_document_migrated_to_two() {
    let c = ctx();
    let mut doc = doc_at(0);
    let identity: Vec<u8> = (0u8..32).collect();
    for v in [1u32, 2] {
        let (mut phase, mut action) = start_step(v, &c);
        loop {
            let event = match action {
                Action::UpdateRules(_) => Event::StoreDone,
                Action::GenerateIdentity => Event::Identity(identity.clone()),
                Action::Done => break,
                other => panic!("unexpected action {other:?}"),
            };
            assert!(accepts_event(phase, &event));
            let next = advance(phase, event, &mut doc, &c);
            phase = next.0;
            action = next.1;
        }
        assert_eq!(phase, Phase::Complete);
    }
    doc.insert("version".to_string(), Value::from(2u32));
    let stored: Vec<u8> = doc["identity"]
        .as_array()
        .unwrap()
        .iter()
        .map(|v| v.as_u64().unwrap() as u8)
        .collect();
    assert_eq!(stored, identity);
    assert_eq!(stored.len(), 32);
    assert_eq!(doc["version"], Value::from(2u32));
    assert_eq!(doc.len(), 2);
}

#[test]
fn node_step_with_one_node_stamps_it() {
    let c = ctx();
    let mut doc = doc_at(2);
    let (phase, action) = start_step(3, &c);
    assert_eq!(phase, Phase::AwaitNodeCount);
    assert!(matches!(action, Action::CountNodes));
    let (phase, action) = advance(phase, Event::NodeCount(1), &mut doc, &c);
    assert_eq!(phase, Phase::AwaitNodeUpdate);
    match action {
        Action::UpdateNodes(u) => {
            assert_eq!(u.pub_id, c.node_id.to_be_bytes().to_vec());
            assert_eq!(u.peer_id, "peer-1");
        }
        other => panic!("unexpected action {other:?}"),
    }
    assert!(!doc.contains_key("node_id"));
    let (phase, action) = advance(phase, Event::StoreDone, &mut doc, &c);
    assert_eq!(phase, Phase::Complete);
    assert!(matches!(action, Action::Done));
    assert_eq!(
        doc["node_id"],
        Value::String("01234567-89ab-cdef-0011-223344556677".to_string())
    );
}

#[test]
fn node_step_with_zero_or_many_nodes_fails() {
    let c = ctx();
    for n in [0i64, 2, 7] {
        let mut doc = doc_at(2);
        let (phase, action) = advance(Phase::AwaitNodeCount, Event::NodeCount(n), &mut doc, &c);
        assert_eq!(phase, Phase::Failed);
        match action {
            Action::Fail(e) => assert_eq!(e, MigrationError::InvariantViolated(n)),
            other => panic!("unexpected action {other:?}"),
        }
        assert_eq!(doc, doc_at(2));
    }
}

#[test]
fn store_failure_fails_the_step() {
    let c = ctx();
    let mut doc = doc_at(4);
    let (phase, action) = advance(
        Phase::AwaitSizeBatch,
        Event::StoreFailed("disk full".to_string()),
        &mut doc,
        &c,
    );
    assert_eq!(phase, Phase::Failed);
    match action {
        Action::Fail(e) => {
            assert_eq!(e, MigrationError::StoreOperationFailed("disk full".to_string()))
        }
        other => panic!("unexpected action {other:?}"),
    }
    assert_eq!(doc, doc_at(4));
}

#[test]
fn backfill_page_converts_and_clears() {
    let rows = vec![
        LegacySizeRow { id: 7, size_in_bytes: Some("1024".to_string()) },
        LegacySizeRow { id: 9, size_in_bytes: Some("abc".to_string()) },
    ];
    let updates = size_updates(&rows);
    assert_eq!(updates.len(), 2);
    assert_eq!(updates[0].id, 7);
    assert_eq!(updates[0].size_bytes, Some(vec![0, 0, 0, 0, 0, 0, 4, 0]));
    assert_eq!(updates[1].id, 9);
    assert_eq!(updates[1].size_bytes, None);
}

#[test]
fn backfill_loops_until_an_empty_page() {
    let c = ctx();
    let mut doc = doc_at(4);
    let (phase, action) = start_step(5, &c);
    assert_eq!(phase, Phase::AwaitSizePage);
    assert!(matches!(action, Action::FetchSizePage(SIZE_PAGE_LIMIT)));
    assert_eq!(SIZE_PAGE_LIMIT, 500);
    let page = vec![LegacySizeRow { id: 1, size_in_bytes: Some("5".to_string()) }];
    let (phase, action) = advance(phase, Event::SizePage(page), &mut doc, &c);
    assert_eq!(phase, Phase::AwaitSizeBatch);
    match action {
        Action::ApplySizeBatch(u) => {
            assert_eq!(u.len(), 1);
            assert_eq!(u[0].size_bytes, Some(5u64.to_be_bytes().to_vec()));
        }
        other => panic!("unexpected action {other:?}"),
    }
    let (phase, action) = advance(phase, Event::StoreDone, &mut doc, &c);
    assert_eq!(phase, Phase::AwaitSizePage);
    assert!(matches!(action, Action::FetchSizePage(500)));
    let (phase, action) = advance(phase, Event::SizePage(Vec::new()), &mut doc, &c);
    assert_eq!(phase, Phase::Complete);
    assert!(matches!(action, Action::Done));
    assert_eq!(doc, doc_at(4));
}

#[test]
fn size_text_edge_cases() {
    let conv = |s: &str| {
        size_updates(&vec![LegacySizeRow { id: 1, size_in_bytes: Some(s.to_string()) }])[0]
            .size_bytes
            .clone()
    };
    assert_eq!(conv("+5"), Some(5u64.to_be_bytes().to_vec()));
    assert_eq!(conv(""), None);
    assert_eq!(conv("-1"), None);
    assert_eq!(conv(" 1"), None);
    assert_eq!(conv("18446744073709551615"), Some(vec![255; 8]));
    assert_eq!(conv("18446744073709551616"), None);
    let missing = size_updates(&vec![LegacySizeRow { id: 3, size_in_bytes: None }]);
    assert_eq!(missing[0].size_bytes, None);
}

#[test]
fn u64_bytes_are_big_endian() {
    assert_eq!(u64_be_bytes(1024), vec![0, 0, 0, 0, 0, 0, 4, 0]);
    assert_eq!(u64_be_bytes(0x0102_0304_0506_0708), vec![1, 2, 3, 4, 5, 6, 7, 8]);
}

#[test]
fn finish_run_records_current_version() {
    let mut doc = doc_at(0);
    finish_run(&mut doc);
    assert_eq!(doc["version"], Value::from(5u32));
    assert_eq!(doc.len(), 1);
}

#[test]
fn rerunning_a_step_keeps_the_outcome() {
    let c = ctx();
    let mut once = doc_at(2);
    advance(Phase::AwaitNodeUpdate, Event::StoreDone, &mut once, &c);
    let mut twice = once.clone();
    advance(Phase::AwaitNodeUpdate, Event::StoreDone, &mut twice, &c);
    assert_eq!(once, twice);
}

#[test]
fn default_config_is_missing() {
    match LibraryConfig::default("lib.sdlibrary".to_string()) {
        Err(e) => assert_eq!(e, MigrationError::ConfigFileMissing("lib.sdlibrary".to_string())),
        Ok(_) => panic!("a library config has no default"),
    }
}

#[test]
fn new_config_and_sanitised_form() {
    let config = LibraryConfig::new("Photos".to_string(), 42, vec![1, 2, 3]);
    assert_eq!(config.description, None);
    assert_eq!(config.identity, vec![1, 2, 3]);
    let s = SanitisedLibraryConfig::from(config);
    assert_eq!(s.name, "Photos");
    assert_eq!(s.node_id, 42);
    assert_eq!(s.description, None);
}

#[test]
fn backfill_over_a_table_ends_after_ceil_pages() {
    let c = ctx();
    let mut doc = doc_at(4);
    // (id, textual size, binary size)
    let mut table: Vec<(i32, Option<String>, Option<Vec<u8>>)> = (0..1001)
        .map(|i| {
            let text = if i % 7 == 0 { "bad".to_string() } else { i.to_string() };
            (i, Some(text), None)
        })
        .collect();
    let (mut phase, mut action) = start_step(5, &c);
    let mut non_empty_pages = 0;
    loop {
        let event = match action {
            Action::FetchSizePage(limit) => {
                let page: Vec<LegacySizeRow> = table
                    .iter()
                    .filter(|r| r.1.is_some())
                    .take(limit as usize)
                    .map(|r| LegacySizeRow { id: r.0, size_in_bytes: r.1.clone() })
                    .collect();
                if !page.is_empty() {
                    non_empty_pages += 1;
                }
                Event::SizePage(page)
            }
            Action::ApplySizeBatch(updates) => {
                for u in updates {
                    let row = &mut table[u.id as usize];
                    row.1 = None;
                    row.2 = u.size_bytes;
                }
                Event::StoreDone
            }
            Action::Done => break,
            other => panic!("unexpected action {other:?}"),
        };
        let next = advance(phase, event, &mut doc, &c);
        phase = next.0;
        action = next.1;
    }
    assert_eq!(non_empty_pages, 3);
    assert!(table.iter().all(|r| r.1.is_none()));
    assert_eq!(table[0].2, None);
    assert_eq!(table[1000].2, Some(1000u64.to_be_bytes().to_vec()));
    assert_eq!(table[8].2, Some(8u64.to_be_bytes().to_vec()));
}
