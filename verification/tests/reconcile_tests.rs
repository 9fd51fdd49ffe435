use artist_sync::catalog::{page_records_in, RawRecord};
use artist_sync::reconcile::{
    parse_record, sift, Artist, Busy, Engine, Entry, Plan, RecordIssue, Snapshot,
};

fn raw(name: Option<&str>, playcount: Option<&str>) -> RawRecord {
    RawRecord { name: name.map(|s| s.to_string()), playcount: playcount.map(|s| s.to_string()) }
}

fn entry(name: &str, playcount: u64) -> Entry {
    Entry { name: name.to_string(), playcount }
}

fn artist(name: &str, playcount: u64, seed: &str) -> Artist {
    Artist { name: name.to_string(), playcount, seed: seed.to_string() }
}

/// A store and an enrichment client that only count what is asked of them.
struct Outside {
    rows: Vec<Artist>,
    writes: usize,
    lookups: Vec<String>,
}

impl Outside {
    fn new() -> Outside {
        Outside { rows: Vec::new(), writes: 0, lookups: Vec::new() }
    }

    fn lookup_seed(&mut self, name: &str) -> String {
        self.lookups.push(name.to_string());
        format!("seed-of-{}", name)
    }

    fn upsert(&mut self, row: &Artist) {
        self.writes += 1;
        match self.rows.iter_mut().find(|r| r.name == row.name) {
            Some(slot) => *slot = row.clone(),
            None => self.rows.push(row.clone()),
        }
    }
}

fn process(engine: &mut Engine, outside: &mut Outside, page: &[RawRecord]) -> Vec<RecordIssue> {
    let sifted = sift(&page.to_vec());
    for e in &sifted.entries {
        match engine.begin(e).unwrap() {
            Plan::Keep => continue,
            Plan::Enrich => assert!(engine.seeded(outside.lookup_seed(&e.name))),
            Plan::Update(row) => assert_eq!(engine.pending_row(), Some(&row)),
        }
        outside.upsert(engine.pending_row().unwrap());
        assert!(engine.written());
    }
    sifted.issues
}

fn engine_on(rows: &Vec<Artist>) -> Engine {
    Engine::new(Snapshot::load(rows))
}

#[test]
fn parse_record_reads_name_and_playcount() {
    assert_eq!(parse_record(&raw(Some("A"), Some("10"))), Ok(entry("A", 10)));
    assert_eq!(parse_record(&raw(Some(""), Some("0"))), Ok(entry("", 0)));
}

#[test]
fn parse_record_reports_each_issue() {
    assert_eq!(parse_record(&raw(None, Some("10"))), Err(RecordIssue::NoName));
    assert_eq!(parse_record(&raw(None, None)), Err(RecordIssue::NoName));
    assert_eq!(parse_record(&raw(Some("A"), None)), Err(RecordIssue::NoPlaycount));
    assert_eq!(parse_record(&raw(Some("A"), Some("ten"))), Err(RecordIssue::BadPlaycount));
    assert_eq!(parse_record(&raw(Some("A"), Some("-1"))), Err(RecordIssue::BadPlaycount));
    assert_eq!(parse_record(&raw(Some("A"), Some(""))), Err(RecordIssue::BadPlaycount));
}

#[test]
fn sift_keeps_the_order_of_the_page() {
    let page = vec![
        raw(Some("A"), Some("1")),
        raw(None, Some("2")),
        raw(Some("B"), Some("x")),
        raw(Some("C"), Some("3")),
        raw(Some("D"), None),
    ];
    let sifted = sift(&page);
    assert_eq!(sifted.entries, vec![entry("A", 1), entry("C", 3)]);
    assert_eq!(
        sifted.issues,
        vec![RecordIssue::NoName, RecordIssue::BadPlaycount, RecordIssue::NoPlaycount]
    );
    let nothing = sift(&vec![]);
    assert!(nothing.entries.is_empty() && nothing.issues.is_empty());
}

#[test]
fn plan_tells_the_three_cases_apart() {
    let mut snapshot = Snapshot::new();
    assert_eq!(snapshot.plan(&entry("A", 10)), Plan::Enrich);
    snapshot.record(artist("A", 10, "S"));
    assert_eq!(snapshot.plan(&entry("A", 10)), Plan::Keep);
    assert_eq!(snapshot.plan(&entry("A", 11)), Plan::Update(artist("A", 11, "S")));
    assert_eq!(snapshot.plan(&entry("a", 10)), Plan::Enrich);
    assert_eq!(snapshot.plan(&entry("B", 10)), Plan::Enrich);
}

#[test]
fn record_replaces_the_row_of_a_name() {
    let mut snapshot = Snapshot::new();
    assert!(snapshot.get("A").is_none());
    snapshot.record(artist("A", 1, "S"));
    snapshot.record(artist("B", 2, "T"));
    snapshot.record(artist("A", 3, "U"));
    assert_eq!(snapshot.get("A"), Some(&artist("A", 3, "U")));
    assert_eq!(snapshot.get("B"), Some(&artist("B", 2, "T")));
    assert!(snapshot.get("C").is_none());
}

#[test]
fn load_takes_the_later_of_two_rows_of_one_name() {
    let snapshot = Snapshot::load(&vec![artist("A", 1, "S"), artist("B", 2, "T"), artist("A", 5, "V")]);
    assert_eq!(snapshot.get("A"), Some(&artist("A", 5, "V")));
    assert_eq!(snapshot.get("B"), Some(&artist("B", 2, "T")));
    assert!(Snapshot::load(&vec![]).get("A").is_none());
}

#[test]
fn second_run_over_unchanged_data_writes_nothing() {
    let pages = vec![
        vec![raw(Some("A"), Some("10")), raw(Some("B"), Some("5"))],
        vec![raw(Some("C"), Some("7")), raw(Some("A"), Some("10"))],
    ];
    let mut outside = Outside::new();
    outside.rows.push(artist("B", 4, "old"));
    let mut engine = engine_on(&outside.rows);
    for page in &pages {
        process(&mut engine, &mut outside, page);
    }
    assert_eq!(outside.writes, 3);
    let mut second = engine_on(&outside.rows);
    let before = outside.writes;
    outside.lookups.clear();
    for page in &pages {
        process(&mut second, &mut outside, page);
    }
    assert_eq!(outside.writes, before);
    assert!(outside.lookups.is_empty());
}

#[test]
fn name_on_two_pages_is_enriched_once() {
    let mut outside = Outside::new();
    let mut engine = Engine::new(Snapshot::new());
    process(&mut engine, &mut outside, &[raw(Some("A"), Some("10")), raw(Some("B"), Some("1"))]);
    process(&mut engine, &mut outside, &[raw(Some("A"), Some("10")), raw(Some("A"), Some("12"))]);
    assert_eq!(outside.lookups, vec!["A".to_string(), "B".to_string()]);
    assert_eq!(outside.rows.iter().filter(|r| r.name == "A").count(), 1);
    assert_eq!(outside.rows, vec![artist("A", 12, "seed-of-A"), artist("B", 1, "seed-of-B")]);
}

#[test]
fn playcount_update_preserves_seed() {
    let mut outside = Outside::new();
    outside.rows.push(artist("A", 10, "S"));
    let mut engine = engine_on(&outside.rows);
    process(&mut engine, &mut outside, &[raw(Some("A"), Some("11"))]);
    assert_eq!(outside.rows, vec![artist("A", 11, "S")]);
    assert!(outside.lookups.is_empty());
    assert_eq!(outside.writes, 1);
    assert_eq!(engine.snapshot().get("A"), Some(&artist("A", 11, "S")));
}

#[test]
fn malformed_record_costs_only_itself() {
    let mut outside = Outside::new();
    let mut engine = Engine::new(Snapshot::new());
    let issues = process(
        &mut engine,
        &mut outside,
        &[raw(Some("A"), Some("10")), raw(Some("B"), Some("many")), raw(Some("C"), Some("3"))],
    );
    assert_eq!(issues, vec![RecordIssue::BadPlaycount]);
    assert_eq!(outside.rows, vec![artist("A", 10, "seed-of-A"), artist("C", 3, "seed-of-C")]);
    assert!(engine.snapshot().get("B").is_none());
}

#[test]
fn two_pages_into_an_empty_store() {
    let bodies = [
        "{\"artists\":{\"artist\":[{\"name\":\"A\",\"playcount\":\"10\"}],\"@attr\":{\"page\":\"1\",\"totalPages\":\"2\"}}}",
        "{\"artists\":{\"artist\":[{\"name\":\"B\",\"playcount\":\"5\"}],\"@attr\":{\"page\":\"2\",\"totalPages\":\"2\"}}}",
    ];
    let mut outside = Outside::new();
    let mut engine = engine_on(&outside.rows);
    for body in bodies {
        let records = page_records_in(body).unwrap();
        assert!(process(&mut engine, &mut outside, &records).is_empty());
    }
    assert_eq!(engine.snapshot().len(), 2);
    assert_eq!(outside.rows, vec![artist("A", 10, "seed-of-A"), artist("B", 5, "seed-of-B")]);
    assert_eq!(outside.lookups, vec!["A".to_string(), "B".to_string()]);
}

#[test]
fn with_seed_makes_the_row_of_an_entry() {
    assert_eq!(entry("A", 10).with_seed("S".to_string()), artist("A", 10, "S"));
    assert_eq!(entry("", 0).with_seed(String::new()), artist("", 0, ""));
}

#[test]
fn len_counts_the_names() {
    let mut snapshot = Snapshot::new();
    assert_eq!(snapshot.len(), 0);
    snapshot.record(artist("A", 1, "S"));
    snapshot.record(artist("B", 2, "T"));
    snapshot.record(artist("A", 3, "S"));
    assert_eq!(snapshot.len(), 2);
    assert_eq!(Snapshot::load(&vec![artist("A", 1, ""), artist("A", 2, ""), artist("A", 3, "")]).len(), 1);
}

#[test]
fn engine_takes_up_one_entry_at_a_time() {
    let mut engine = Engine::new(Snapshot::new());
    assert_eq!(engine.begin(&entry("A", 1)), Ok(Plan::Enrich));
    assert_eq!(engine.begin(&entry("A", 1)), Err(Busy));
    assert_eq!(engine.begin(&entry("B", 2)), Err(Busy));
    assert_eq!(engine.pending_row(), None);
    assert!(engine.seeded("S".to_string()));
    assert_eq!(engine.pending_row(), Some(&artist("A", 1, "S")));
    assert_eq!(engine.begin(&entry("B", 2)), Err(Busy));
    assert!(engine.snapshot().get("A").is_none());
    assert!(engine.written());
    assert_eq!(engine.snapshot().get("A"), Some(&artist("A", 1, "S")));
    assert_eq!(engine.begin(&entry("A", 1)), Ok(Plan::Keep));
    assert_eq!(engine.begin(&entry("A", 2)), Ok(Plan::Update(artist("A", 2, "S"))));
    assert_eq!(engine.pending_row(), Some(&artist("A", 2, "S")));
    assert!(engine.written());
    assert_eq!(engine.snapshot().get("A"), Some(&artist("A", 2, "S")));
}

#[test]
fn engine_refuses_what_is_out_of_turn() {
    let mut engine = engine_on(&vec![artist("A", 1, "S")]);
    assert!(!engine.seeded("X".to_string()));
    assert!(!engine.written());
    assert_eq!(engine.begin(&entry("B", 1)), Ok(Plan::Enrich));
    assert!(!engine.written());
    assert!(engine.seeded("T".to_string()));
    assert!(!engine.seeded("U".to_string()));
    assert_eq!(engine.pending_row(), Some(&artist("B", 1, "T")));
    assert!(engine.written());
    assert!(!engine.written());
    assert_eq!(engine.snapshot().len(), 2);
}

#[test]
fn abandoned_unit_leaves_the_snapshot_as_it_was() {
    let mut engine = engine_on(&vec![artist("A", 1, "S")]);
    assert_eq!(engine.begin(&entry("B", 1)), Ok(Plan::Enrich));
    engine.abandon();
    assert!(engine.snapshot().get("B").is_none());
    assert_eq!(engine.begin(&entry("A", 2)), Ok(Plan::Update(artist("A", 2, "S"))));
    engine.abandon();
    assert_eq!(engine.snapshot().get("A"), Some(&artist("A", 1, "S")));
    assert_eq!(engine.begin(&entry("B", 1)), Ok(Plan::Enrich));
    assert!(engine.seeded("T".to_string()));
    engine.abandon();
    assert_eq!(engine.pending_row(), None);
    assert_eq!(engine.snapshot().len(), 1);
    assert_eq!(engine.begin(&entry("B", 1)), Ok(Plan::Enrich));
}
