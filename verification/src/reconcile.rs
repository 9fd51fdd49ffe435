//! The reconciliation engine: what to do with each artist record of the
//! remote catalog, given the artists already stored.
//!
//! The engine decides; its caller acts. For each entry of a page the caller
//! asks [`Engine::begin`], does the outside work that the plan calls for (the
//! seed lookup, handed over with [`Engine::seeded`], and the store write) and
//! ends the unit with [`Engine::written`], or with [`Engine::abandon`] where
//! the outside work failed. Callers that share an engine hold it exclusively
//! from the beginning of a unit to its end.
//!
//! [`run`] is the model of a whole run, and the laws at the end of this file
//! are stated of it.

use vstd::prelude::*;
use crate::catalog::{RawRecord, RawRecordView, record_views};
use crate::text::{decimal_u64, parse_u64, same_text};

verus! {

/// Why a record of a page was left out.
#[derive(Debug, Clone, Copy, PartialEq, Eq)]
pub enum RecordIssue {
    /// The record has no string under `name`.
    NoName,
    /// The record has no string under `playcount`.
    NoPlaycount,
    /// The string under `playcount` is no unsigned decimal number.
    BadPlaycount,
}

/// A well-formed record: an artist and how often it was played.
#[derive(Debug, Clone, PartialEq, Eq)]
pub struct Entry {
    pub name: String,
    pub playcount: u64,
}

/// The mathematical value of an [`Entry`].
pub struct EntryView {
    pub name: Seq<char>,
    pub playcount: u64,
}

impl View for Entry {
    type V = EntryView;

    open spec fn view(&self) -> EntryView {
        EntryView { name: self.name@, playcount: self.playcount }
    }
}

/// The values of a sequence of entries.
pub open spec fn entry_views(entries: Seq<Entry>) -> Seq<EntryView> {
    entries.map_values(|e: Entry| e@)
}

/// The entry that a record holds, or why it holds none. A missing name is
/// reported before a missing playcount.
pub open spec fn entry_of(raw: RawRecordView) -> Result<EntryView, RecordIssue> {
    match raw.name {
        None => Err(RecordIssue::NoName),
        Some(name) => match raw.playcount {
            None => Err(RecordIssue::NoPlaycount),
            Some(digits) => match decimal_u64(digits) {
                None => Err(RecordIssue::BadPlaycount),
                Some(playcount) => Ok(EntryView { name, playcount }),
            },
        },
    }
}

/// An outcome of reading a record, the entry taken by its value.
pub open spec fn parsed_view(r: Result<Entry, RecordIssue>) -> Result<EntryView, RecordIssue> {
    match r {
        Ok(e) => Ok(e@),
        Err(issue) => Err(issue),
    }
}

/// Reads the name and the playcount of a record.
pub fn parse_record(raw: &RawRecord) -> (r: Result<Entry, RecordIssue>)
    ensures
        parsed_view(r) == entry_of(raw@),
{
    let name = match &raw.name {
        Some(n) => n,
        None => { return Err(RecordIssue::NoName); },
    };
    let digits = match &raw.playcount {
        Some(d) => d,
        None => { return Err(RecordIssue::NoPlaycount); },
    };
    match parse_u64(digits.as_str()) {
        Some(playcount) => Ok(Entry { name: name.clone(), playcount }),
        None => Err(RecordIssue::BadPlaycount),
    }
}

/// The entries of the well-formed records among `raws`, in their order.
pub open spec fn entries_in(raws: Seq<RawRecordView>) -> Seq<EntryView>
    decreases raws.len(),
{
    if raws.len() == 0 {
        Seq::empty()
    } else {
        match entry_of(raws.last()) {
            Ok(e) => entries_in(raws.drop_last()).push(e),
            Err(_) => entries_in(raws.drop_last()),
        }
    }
}

/// The issues of the malformed records among `raws`, in their order.
pub open spec fn issues_in(raws: Seq<RawRecordView>) -> Seq<RecordIssue>
    decreases raws.len(),
{
    if raws.len() == 0 {
        Seq::empty()
    } else {
        match entry_of(raws.last()) {
            Ok(_) => issues_in(raws.drop_last()),
            Err(issue) => issues_in(raws.drop_last()).push(issue),
        }
    }
}

/// The records of a page, told apart.
#[derive(Debug)]
pub struct Sifted {
    /// The well-formed records, in the order of the page.
    pub entries: Vec<Entry>,
    /// One issue for each record left out, in the order of the page.
    pub issues: Vec<RecordIssue>,
}

/// Tells the well-formed records of a page from the others. A malformed
/// record costs the page nothing but that record.
pub fn sift(records: &Vec<RawRecord>) -> (r: Sifted)
    ensures
        entry_views(r.entries@) == entries_in(record_views(records@)),
        r.issues@ == issues_in(record_views(records@)),
{
    let mut entries: Vec<Entry> = Vec::new();
    let mut issues: Vec<RecordIssue> = Vec::new();
    let ghost raws = record_views(records@);
    let mut i: usize = 0;
    while i < records.len()
        invariant
            i <= records.len(),
            raws == record_views(records@),
            entry_views(entries@) == entries_in(raws.take(i as int)),
            issues@ == issues_in(raws.take(i as int)),
        decreases records.len() - i,
    {
        assert(raws.take(i + 1).drop_last() =~= raws.take(i as int));
        match parse_record(&records[i]) {
            Ok(e) => {
                entries.push(e);
            },
            Err(issue) => {
                issues.push(issue);
            },
        }
        i += 1;
    }
    assert(raws.take(records@.len() as int) =~= raws);
    Sifted { entries, issues }
}

/// A stored artist: the row of the artist table.
#[derive(Debug, Clone, PartialEq, Eq)]
pub struct Artist {
    /// The key of the row.
    pub name: String,
    pub playcount: u64,
    /// The identifier in the external catalog; empty where none is known.
    pub seed: String,
}

/// The mathematical value of an [`Artist`].
pub struct ArtistView {
    pub name: Seq<char>,
    pub playcount: u64,
    pub seed: Seq<char>,
}

impl View for Artist {
    type V = ArtistView;

    open spec fn view(&self) -> ArtistView {
        ArtistView { name: self.name@, playcount: self.playcount, seed: self.seed@ }
    }
}

/// The row of the entry `e` with the seed `seed`.
pub open spec fn seeded(e: EntryView, seed: Seq<char>) -> ArtistView {
    ArtistView { name: e.name, playcount: e.playcount, seed }
}

impl Entry {
    /// The row to write for this entry once its seed is looked up.
    pub fn with_seed(&self, seed: String) -> (row: Artist)
        ensures
            row@ == seeded(self@, seed@),
    {
        Artist { name: self.name.clone(), playcount: self.playcount, seed }
    }
}

fn copy_of(row: &Artist) -> (copy: Artist)
    ensures
        copy@ == row@,
{
    Artist { name: row.name.clone(), playcount: row.playcount, seed: row.seed.clone() }
}

/// The values of a sequence of artists.
pub open spec fn artist_views(rows: Seq<Artist>) -> Seq<ArtistView> {
    rows.map_values(|a: Artist| a@)
}

/// What is known of one artist name.
pub struct Known {
    pub playcount: u64,
    pub seed: Seq<char>,
}

/// The stored artists by name.
pub type Catalog = Map<Seq<char>, Known>;

/// The catalog after the row `a` is written to it: the row replaces what
/// was known under its name.
pub open spec fn upserted(m: Catalog, a: ArtistView) -> Catalog {
    m.insert(a.name, Known { playcount: a.playcount, seed: a.seed })
}

/// The catalog that holds `rows`, written one after the other to an empty one.
pub open spec fn loaded(rows: Seq<ArtistView>) -> Catalog
    decreases rows.len(),
{
    if rows.len() == 0 {
        Map::empty()
    } else {
        upserted(loaded(rows.drop_last()), rows.last())
    }
}

/// What a record calls for.
#[derive(Debug, Clone, PartialEq, Eq)]
pub enum Plan {
    /// The artist is stored with this playcount: nothing is written.
    Keep,
    /// The artist is not stored: its seed is looked up, then the row is written.
    Enrich,
    /// The artist is stored with another playcount: this row is written,
    /// which holds the new playcount and the seed already known.
    Update(Artist),
}

/// The mathematical value of a [`Plan`].
pub enum PlanView {
    Keep,
    Enrich,
    Update(ArtistView),
}

impl View for Plan {
    type V = PlanView;

    open spec fn view(&self) -> PlanView {
        match self {
            Plan::Keep => PlanView::Keep,
            Plan::Enrich => PlanView::Enrich,
            Plan::Update(a) => PlanView::Update(a@),
        }
    }
}

/// What the entry `e` calls for where `m` is stored.
pub open spec fn planned(m: Catalog, e: EntryView) -> PlanView {
    if !m.dom().contains(e.name) {
        PlanView::Enrich
    } else if m[e.name].playcount == e.playcount {
        PlanView::Keep
    } else {
        PlanView::Update(seeded(e, m[e.name].seed))
    }
}

/// Whether one of `rows` has the name `name`.
spec fn names(rows: Seq<ArtistView>, name: Seq<char>) -> bool {
    exists|i: int| 0 <= i < rows.len() && (#[trigger] rows[i]).name == name
}

/// The place of a row with the name `name`.
spec fn place_of(rows: Seq<ArtistView>, name: Seq<char>) -> int {
    choose|i: int| 0 <= i < rows.len() && (#[trigger] rows[i]).name == name
}

/// No two of `rows` have one name.
spec fn distinct_names(rows: Seq<ArtistView>) -> bool {
    forall|i: int, j: int|
        0 <= i < j < rows.len() ==> (#[trigger] rows[i]).name != (#[trigger] rows[j]).name
}

/// The catalog that rows of distinct names make up.
spec fn catalog_of(rows: Seq<ArtistView>) -> Catalog {
    Map::new(
        |name: Seq<char>| names(rows, name),
        |name: Seq<char>|
            Known {
                playcount: rows[place_of(rows, name)].playcount,
                seed: rows[place_of(rows, name)].seed,
            },
    )
}

/// The artists stored, as far as this run knows: those loaded at its start
/// and those it has written since. No name occurs twice.
#[derive(Debug)]
pub struct Snapshot {
    rows: Vec<Artist>,
}

impl View for Snapshot {
    type V = Catalog;

    closed spec fn view(&self) -> Catalog {
        catalog_of(artist_views(self.rows@))
    }
}

impl Snapshot {
    #[verifier::type_invariant]
    spec fn well_formed(&self) -> bool {
        distinct_names(artist_views(self.rows@))
    }

    /// A snapshot of an empty store.
    pub fn new() -> (s: Snapshot)
        ensures
            s@ == Map::<Seq<char>, Known>::empty(),
    {
        Snapshot { rows: Vec::new() }
    }

    fn place(&self, name: &str) -> (r: Option<usize>)
        ensures
            match r {
                Some(i) => i < self.rows@.len() && self.rows@[i as int].name@ == name@,
                None => !names(artist_views(self.rows@), name@),
            },
    {
        let mut i: usize = 0;
        while i < self.rows.len()
            invariant
                i <= self.rows.len(),
                forall|k: int| 0 <= k < i ==> (#[trigger] self.rows@[k]).name@ != name@,
            decreases self.rows.len() - i,
        {
            if same_text(self.rows[i].name.as_str(), name) {
                return Some(i);
            }
            i += 1;
        }
        assert forall|k: int| 0 <= k < self.rows@.len() implies (#[trigger] artist_views(
            self.rows@,
        )[k]).name != name@ by {
            assert(self.rows@[k].name@ != name@);
        }
        None
    }

    /// What is stored under `name`.
    pub fn get(&self, name: &str) -> (r: Option<&Artist>)
        ensures
            match r {
                Some(a) => self@.dom().contains(name@) && a.name@ == name@ && self@[name@]
                    == (Known { playcount: a.playcount, seed: a.seed@ }),
                None => !self@.dom().contains(name@),
            },
    {
        proof {
            use_type_invariant(self);
        }
        match self.place(name) {
            Some(i) => {
                proof {
                    lemma_catalog_at(artist_views(self.rows@), i as int);
                }
                Some(&self.rows[i])
            },
            None => None,
        }
    }

    /// How many artists are stored.
    pub fn len(&self) -> (n: usize)
        ensures
            self@.dom().finite(),
            n == self@.dom().len(),
    {
        proof {
            use_type_invariant(self);
            lemma_catalog_size(artist_views(self.rows@));
        }
        self.rows.len()
    }

    /// What the entry calls for.
    pub fn plan(&self, entry: &Entry) -> (p: Plan)
        ensures
            p@ == planned(self@, entry@),
    {
        match self.get(entry.name.as_str()) {
            None => Plan::Enrich,
            Some(known) => {
                if known.playcount == entry.playcount {
                    Plan::Keep
                } else {
                    Plan::Update(entry.with_seed(known.seed.clone()))
                }
            },
        }
    }

    /// Takes note that `artist` was written to the store.
    pub fn record(&mut self, artist: Artist)
        ensures
            final(self)@ == upserted(old(self)@, artist@),
    {
        proof {
            use_type_invariant(&*self);
        }
        let place = self.place(artist.name.as_str());
        let ghost before = artist_views(self.rows@);
        let mut rows: Vec<Artist> = Vec::new();
        core::mem::swap(&mut rows, &mut self.rows);
        match place {
            Some(i) => {
                rows.set(i, artist);
                proof {
                    assert(artist_views(rows@) =~= before.update(i as int, artist@));
                    lemma_catalog_update(before, i as int, artist@);
                }
            },
            None => {
                rows.push(artist);
                proof {
                    assert(artist_views(rows@) =~= before.push(artist@));
                    lemma_catalog_push(before, artist@);
                }
            },
        }
        self.rows = rows;
    }

    /// The snapshot of a store that holds `rows`: each is taken note of in
    /// turn, so of two rows of one name the later stands.
    pub fn load(rows: &Vec<Artist>) -> (s: Snapshot)
        ensures
            s@ == loaded(artist_views(rows@)),
    {
        let mut s = Snapshot::new();
        let ghost all = artist_views(rows@);
        let mut i: usize = 0;
        while i < rows.len()
            invariant
                i <= rows.len(),
                all == artist_views(rows@),
                s@ == loaded(all.take(i as int)),
            decreases rows.len() - i,
        {
            assert(all.take(i + 1).drop_last() =~= all.take(i as int));
            s.record(copy_of(&rows[i]));
            i += 1;
        }
        assert(all.take(rows@.len() as int) =~= all);
        s
    }
}

/// What the engine waits for.
#[derive(Debug)]
enum Pending {
    /// Nothing: the next entry can be taken up.
    Nothing,
    /// The seed of this entry.
    Seed(Entry),
    /// Word that this row was written to the store.
    Write(Artist),
}

/// What an engine waits for.
pub enum PendingView {
    /// Nothing: the next entry can be taken up.
    Nothing,
    /// The seed of this entry.
    Seed(EntryView),
    /// Word that this row was written to the store.
    Write(ArtistView),
}

impl View for Pending {
    type V = PendingView;

    closed spec fn view(&self) -> PendingView {
        match self {
            Pending::Nothing => PendingView::Nothing,
            Pending::Seed(e) => PendingView::Seed(e@),
            Pending::Write(row) => PendingView::Write(row@),
        }
    }
}

/// What is pending once the entry `e` was taken up where `m` is stored.
pub open spec fn pending_after(m: Catalog, e: EntryView) -> PendingView {
    match planned(m, e) {
        PlanView::Keep => PendingView::Nothing,
        PlanView::Enrich => PendingView::Seed(e),
        PlanView::Update(row) => PendingView::Write(row),
    }
}

/// The engine was asked to take up an entry while it waits for the outcome
/// of another.
#[derive(Debug, Clone, Copy, PartialEq, Eq)]
pub struct Busy;

/// The reconciliation engine: the snapshot, and the one entry that is being
/// dealt with. An entry is dealt with as one unit: it is taken up with
/// [`Engine::begin`], and until the unit ends, with [`Engine::written`] or
/// [`Engine::abandon`], no other entry is taken up. So no two units decide on
/// one name at a time, and the snapshot changes only by rows that were
/// written.
#[derive(Debug)]
pub struct Engine {
    snapshot: Snapshot,
    pending: Pending,
}

/// The mathematical value of an [`Engine`].
pub struct EngineView {
    pub catalog: Catalog,
    pub pending: PendingView,
}

impl View for Engine {
    type V = EngineView;

    closed spec fn view(&self) -> EngineView {
        EngineView { catalog: self.snapshot@, pending: self.pending@ }
    }
}

impl Engine {
    /// An engine that starts from `snapshot` and waits for nothing.
    pub fn new(snapshot: Snapshot) -> (engine: Engine)
        ensures
            engine@ == (EngineView { catalog: snapshot@, pending: PendingView::Nothing }),
    {
        Engine { snapshot, pending: Pending::Nothing }
    }

    /// The artists stored, as far as this run knows.
    pub fn snapshot(&self) -> (s: &Snapshot)
        ensures
            s@ == self@.catalog,
    {
        &self.snapshot
    }

    /// The row that is to be written now, if the engine waits for one.
    pub fn pending_row(&self) -> (r: Option<&Artist>)
        ensures
            match r {
                Some(row) => self@.pending == PendingView::Write(row@),
                None => !(self@.pending is Write),
            },
    {
        match &self.pending {
            Pending::Write(row) => Some(row),
            _ => None,
        }
    }

    /// Takes up an entry and says what it calls for. Where the plan is to
    /// enrich, the engine then waits for the seed; where it is to update, for
    /// word that the row was written. An engine that waits for anything
    /// refuses, and stays as it is.
    pub fn begin(&mut self, entry: &Entry) -> (r: Result<Plan, Busy>)
        ensures
            match r {
                Ok(plan) => old(self)@.pending is Nothing && plan@ == planned(
                    old(self)@.catalog,
                    entry@,
                ) && final(self)@ == (EngineView {
                    catalog: old(self)@.catalog,
                    pending: pending_after(old(self)@.catalog, entry@),
                }),
                Err(_) => !(old(self)@.pending is Nothing) && final(self)@ == old(self)@,
            },
    {
        match &self.pending {
            Pending::Nothing => {},
            _ => { return Err(Busy); },
        }
        match self.snapshot.plan(entry) {
            Plan::Keep => Ok(Plan::Keep),
            Plan::Enrich => {
                self.pending = Pending::Seed(
                    Entry { name: entry.name.clone(), playcount: entry.playcount },
                );
                Ok(Plan::Enrich)
            },
            Plan::Update(row) => {
                self.pending = Pending::Write(copy_of(&row));
                Ok(Plan::Update(row))
            },
        }
    }

    /// Takes the seed that was looked up for the entry taken up. The engine
    /// then waits for word that the row of the entry with this seed was
    /// written. An engine that does not wait for a seed refuses, and stays as
    /// it is.
    pub fn seeded(&mut self, seed: String) -> (taken: bool)
        ensures
            match old(self)@.pending {
                PendingView::Seed(e) => taken && final(self)@ == (EngineView {
                    catalog: old(self)@.catalog,
                    pending: PendingView::Write(seeded(e, seed@)),
                }),
                _ => !taken && final(self)@ == old(self)@,
            },
    {
        let mut pending = Pending::Nothing;
        core::mem::swap(&mut pending, &mut self.pending);
        match pending {
            Pending::Seed(entry) => {
                self.pending = Pending::Write(entry.with_seed(seed));
                true
            },
            other => {
                self.pending = other;
                false
            },
        }
    }

    /// Takes note that the pending row was written to the store, which ends
    /// the unit. An engine that does not wait for a write refuses, and stays
    /// as it is.
    pub fn written(&mut self) -> (taken: bool)
        ensures
            match old(self)@.pending {
                PendingView::Write(row) => taken && final(self)@ == (EngineView {
                    catalog: upserted(old(self)@.catalog, row),
                    pending: PendingView::Nothing,
                }),
                _ => !taken && final(self)@ == old(self)@,
            },
    {
        let mut pending = Pending::Nothing;
        core::mem::swap(&mut pending, &mut self.pending);
        match pending {
            Pending::Write(row) => {
                self.snapshot.record(row);
                true
            },
            other => {
                self.pending = other;
                false
            },
        }
    }

    /// Ends the unit without a write, as after a lookup or a write that
    /// failed: the snapshot stays as it is.
    pub fn abandon(&mut self)
        ensures
            final(self)@ == (EngineView {
                catalog: old(self)@.catalog,
                pending: PendingView::Nothing,
            }),
    {
        self.pending = Pending::Nothing;
    }
}

/// Among rows of distinct names, the catalog holds each row under its name.
proof fn lemma_catalog_at(rows: Seq<ArtistView>, i: int)
    requires
        distinct_names(rows),
        0 <= i < rows.len(),
    ensures
        catalog_of(rows).dom().contains(rows[i].name),
        catalog_of(rows)[rows[i].name] == (Known { playcount: rows[i].playcount, seed: rows[i].seed }),
{
    assert(place_of(rows, rows[i].name) == i);
}

/// Rows of distinct names make up a catalog of as many artists.
proof fn lemma_catalog_size(rows: Seq<ArtistView>)
    requires
        distinct_names(rows),
    ensures
        catalog_of(rows).dom().finite(),
        catalog_of(rows).dom().len() == rows.len(),
    decreases rows.len(),
{
    if rows.len() == 0 {
        assert(catalog_of(rows).dom() =~= Set::<Seq<char>>::empty());
    } else {
        let earlier = rows.drop_last();
        let last = rows.last();
        assert(!names(earlier, last.name)) by {
            if names(earlier, last.name) {
                let k = place_of(earlier, last.name);
                assert(rows[k].name == rows[rows.len() - 1].name);
            }
        }
        lemma_catalog_size(earlier);
        lemma_catalog_push(earlier, last);
        assert(earlier.push(last) =~= rows);
    }
}

/// Replacing a row by one of the same name is an upsert of the catalog.
proof fn lemma_catalog_update(rows: Seq<ArtistView>, i: int, a: ArtistView)
    requires
        distinct_names(rows),
        0 <= i < rows.len(),
        rows[i].name == a.name,
    ensures
        distinct_names(rows.update(i, a)),
        catalog_of(rows.update(i, a)) == upserted(catalog_of(rows), a),
{
    let after = rows.update(i, a);
    assert forall|name: Seq<char>| names(after, name) == (names(rows, name) || name
        == a.name) by {
        if names(after, name) {
            let k = place_of(after, name);
            assert(rows[k].name == name || name == a.name);
        }
        if names(rows, name) {
            let k = place_of(rows, name);
            assert(after[k].name == name);
        }
    }
    assert forall|name: Seq<char>| names(after, name) implies #[trigger] catalog_of(after)[name]
        == upserted(catalog_of(rows), a)[name] by {
        let k = place_of(after, name);
        lemma_catalog_at(after, k);
        if name != a.name {
            lemma_catalog_at(rows, k);
        }
    }
}

/// Adding a row of a new name is an upsert of the catalog.
proof fn lemma_catalog_push(rows: Seq<ArtistView>, a: ArtistView)
    requires
        distinct_names(rows),
        !names(rows, a.name),
    ensures
        distinct_names(rows.push(a)),
        catalog_of(rows.push(a)) == upserted(catalog_of(rows), a),
{
    let after = rows.push(a);
    assert forall|name: Seq<char>| names(after, name) == (names(rows, name) || name
        == a.name) by {
        if names(after, name) {
            let k = place_of(after, name);
            assert(k < rows.len() ==> rows[k].name == name);
        }
        if names(rows, name) {
            let k = place_of(rows, name);
            assert(after[k].name == name);
        }
        if name == a.name {
            assert(after[rows.len() as int].name == name);
        }
    }
    assert forall|name: Seq<char>| names(after, name) implies #[trigger] catalog_of(after)[name]
        == upserted(catalog_of(rows), a)[name] by {
        let k = place_of(after, name);
        lemma_catalog_at(after, k);
        if name != a.name {
            lemma_catalog_at(rows, k);
        }
    }
}

/// The row that is written for the entry `e` where `m` is stored and the
/// seed lookup answers `seeds(name)`; `None` where nothing is written.
pub open spec fn written(m: Catalog, e: EntryView, seeds: spec_fn(Seq<char>) -> Seq<char>) -> Option<
    ArtistView,
> {
    match planned(m, e) {
        PlanView::Keep => None,
        PlanView::Enrich => Some(seeded(e, seeds(e.name))),
        PlanView::Update(row) => Some(row),
    }
}

/// What is stored after the unit of the entry `e` has run to its end.
pub open spec fn after(m: Catalog, e: EntryView, seeds: spec_fn(Seq<char>) -> Seq<char>) -> Catalog {
    match written(m, e, seeds) {
        None => m,
        Some(row) => upserted(m, row),
    }
}

/// What is stored after a run over `entries`, in which every lookup and
/// every write succeeds. The entries stand in the order in which the run
/// dealt with them, whatever pages they came from and however the pages were
/// interleaved: each entry is dealt with as one unit.
pub open spec fn run(
    m: Catalog,
    entries: Seq<EntryView>,
    seeds: spec_fn(Seq<char>) -> Seq<char>,
) -> Catalog
    decreases entries.len(),
{
    if entries.len() == 0 {
        m
    } else {
        after(run(m, entries.drop_last(), seeds), entries.last(), seeds)
    }
}

/// The rows that such a run writes, in order.
pub open spec fn run_writes(
    m: Catalog,
    entries: Seq<EntryView>,
    seeds: spec_fn(Seq<char>) -> Seq<char>,
) -> Seq<ArtistView>
    decreases entries.len(),
{
    if entries.len() == 0 {
        Seq::empty()
    } else {
        let earlier = run_writes(m, entries.drop_last(), seeds);
        match written(run(m, entries.drop_last(), seeds), entries.last(), seeds) {
            None => earlier,
            Some(row) => earlier.push(row),
        }
    }
}

/// The names whose seed such a run looks up, in order.
pub open spec fn run_lookups(
    m: Catalog,
    entries: Seq<EntryView>,
    seeds: spec_fn(Seq<char>) -> Seq<char>,
) -> Seq<Seq<char>>
    decreases entries.len(),
{
    if entries.len() == 0 {
        Seq::empty()
    } else {
        let earlier = run_lookups(m, entries.drop_last(), seeds);
        match planned(run(m, entries.drop_last(), seeds), entries.last()) {
            PlanView::Enrich => earlier.push(entries.last().name),
            _ => earlier,
        }
    }
}

/// The playcount of the last of `entries` that has the name `name`.
pub open spec fn last_seen(entries: Seq<EntryView>, name: Seq<char>) -> Option<u64>
    decreases entries.len(),
{
    if entries.len() == 0 {
        None
    } else if entries.last().name == name {
        Some(entries.last().playcount)
    } else {
        last_seen(entries.drop_last(), name)
    }
}

/// No name occurs in `entries` with two playcounts.
pub open spec fn consistent(entries: Seq<EntryView>) -> bool {
    forall|i: int, j: int|
        0 <= i < entries.len() && 0 <= j < entries.len() && (#[trigger] entries[i]).name == (
        #[trigger] entries[j]).name ==> entries[i].playcount == entries[j].playcount
}

/// A unit that runs to its end leaves the store as [`after`] says: as it was
/// where nothing was pending once the entry was taken up, and else with the
/// row that was pending at last.
pub proof fn lemma_unit_leaves_after(
    m: Catalog,
    e: EntryView,
    seeds: spec_fn(Seq<char>) -> Seq<char>,
)
    ensures
        after(m, e, seeds) == match pending_after(m, e) {
            PendingView::Nothing => m,
            PendingView::Seed(entry) => upserted(m, seeded(entry, seeds(entry.name))),
            PendingView::Write(row) => upserted(m, row),
        },
{
}

/// After a run, an artist that the entries name is stored with the playcount
/// of the last entry that names it, and an artist that they do not name is
/// stored as before, or not at all as before.
pub proof fn lemma_run_playcounts(
    m: Catalog,
    entries: Seq<EntryView>,
    seeds: spec_fn(Seq<char>) -> Seq<char>,
    name: Seq<char>,
)
    ensures
        match last_seen(entries, name) {
            Some(playcount) => run(m, entries, seeds).dom().contains(name) && run(
                m,
                entries,
                seeds,
            )[name].playcount == playcount,
            None => run(m, entries, seeds).dom().contains(name) == m.dom().contains(name) && run(
                m,
                entries,
                seeds,
            )[name] == m[name],
        },
    decreases entries.len(),
{
    if entries.len() > 0 {
        lemma_run_playcounts(m, entries.drop_last(), seeds, name);
    }
}

/// A playcount update preserves the seed: an artist that is stored before a
/// run is stored after it with the seed it had, whatever the entries say of
/// its playcount, and its seed is not looked up.
pub proof fn lemma_run_keeps_seed(
    m: Catalog,
    entries: Seq<EntryView>,
    seeds: spec_fn(Seq<char>) -> Seq<char>,
    name: Seq<char>,
)
    requires
        m.dom().contains(name),
    ensures
        run(m, entries, seeds).dom().contains(name),
        run(m, entries, seeds)[name].seed == m[name].seed,
        !run_lookups(m, entries, seeds).contains(name),
    decreases entries.len(),
{
    if entries.len() > 0 {
        lemma_run_keeps_seed(m, entries.drop_last(), seeds, name);
    }
}

/// No duplicate enrichment: however often the entries of a run name an
/// artist, its seed is looked up once if it was not stored before the run,
/// and never if it was.
pub proof fn lemma_one_lookup_per_new_artist(
    m: Catalog,
    entries: Seq<EntryView>,
    seeds: spec_fn(Seq<char>) -> Seq<char>,
)
    ensures
        run_lookups(m, entries, seeds).no_duplicates(),
        forall|name: Seq<char>|
            run_lookups(m, entries, seeds).contains(name) <==> !m.dom().contains(name)
                && last_seen(entries, name) is Some,
    decreases entries.len(),
{
    if entries.len() > 0 {
        let earlier = entries.drop_last();
        let e = entries.last();
        lemma_one_lookup_per_new_artist(m, earlier, seeds);
        lemma_run_playcounts(m, earlier, seeds, e.name);
        let before = run_lookups(m, earlier, seeds);
        let all = run_lookups(m, entries, seeds);
        if planned(run(m, earlier, seeds), e) is Enrich {
            assert forall|name: Seq<char>| all.contains(name) <==> !m.dom().contains(name)
                && last_seen(entries, name) is Some by {
                if all.contains(name) {
                    let k = choose|k: int| 0 <= k < all.len() && all[k] == name;
                    assert(k < before.len() ==> before[k] == name);
                }
                if !m.dom().contains(name) && last_seen(entries, name) is Some {
                    if name == e.name {
                        assert(all[before.len() as int] == name);
                    } else {
                        let k = choose|k: int| 0 <= k < before.len() && before[k] == name;
                        assert(all[k] == name);
                    }
                }
            }
        }
    }
}

/// Where every entry is stored with its playcount, a run does nothing.
pub proof fn lemma_settled_run_is_idle(
    m: Catalog,
    entries: Seq<EntryView>,
    seeds: spec_fn(Seq<char>) -> Seq<char>,
)
    requires
        forall|i: int|
            0 <= i < entries.len() ==> m.dom().contains((#[trigger] entries[i]).name)
                && m[entries[i].name].playcount == entries[i].playcount,
    ensures
        run(m, entries, seeds) == m,
        run_writes(m, entries, seeds) == Seq::<ArtistView>::empty(),
        run_lookups(m, entries, seeds) == Seq::<Seq<char>>::empty(),
    decreases entries.len(),
{
    if entries.len() > 0 {
        lemma_settled_run_is_idle(m, entries.drop_last(), seeds);
    }
}

/// In consistent entries, the last playcount seen of a name is that of any
/// entry that names it.
pub proof fn lemma_last_seen_of_consistent(entries: Seq<EntryView>, i: int)
    requires
        consistent(entries),
        0 <= i < entries.len(),
    ensures
        last_seen(entries, entries[i].name) == Some(entries[i].playcount),
    decreases entries.len(),
{
    if entries.last().name != entries[i].name {
        lemma_last_seen_of_consistent(entries.drop_last(), i);
    }
}

/// Idempotence: a second run over the same entries writes nothing, looks
/// nothing up and leaves the store as the first run left it, whatever the
/// lookups would answer, provided that no name occurs in the entries with two
/// playcounts.
pub proof fn lemma_second_run_is_idle(
    m: Catalog,
    entries: Seq<EntryView>,
    first: spec_fn(Seq<char>) -> Seq<char>,
    second: spec_fn(Seq<char>) -> Seq<char>,
)
    requires
        consistent(entries),
    ensures
        run_writes(run(m, entries, first), entries, second) == Seq::<ArtistView>::empty(),
        run_lookups(run(m, entries, first), entries, second) == Seq::<Seq<char>>::empty(),
        run(run(m, entries, first), entries, second) == run(m, entries, first),
{
    let settled = run(m, entries, first);
    assert forall|i: int| 0 <= i < entries.len() implies settled.dom().contains(
        (#[trigger] entries[i]).name,
    ) && settled[entries[i].name].playcount == entries[i].playcount by {
        lemma_last_seen_of_consistent(entries, i);
        lemma_run_playcounts(m, entries, first, entries[i].name);
    }
    lemma_settled_run_is_idle(settled, entries, second);
}

/// Every record of a page is accounted for: it gives an entry or an issue.
pub proof fn lemma_every_record_is_accounted_for(raws: Seq<RawRecordView>)
    ensures
        entries_in(raws).len() + issues_in(raws).len() == raws.len(),
    decreases raws.len(),
{
    if raws.len() > 0 {
        lemma_every_record_is_accounted_for(raws.drop_last());
    }
}

/// The well-formed records of two stretches of a page are those of the
/// first, then those of the second.
pub proof fn lemma_entries_of_parts(a: Seq<RawRecordView>, b: Seq<RawRecordView>)
    ensures
        entries_in(a + b) == entries_in(a) + entries_in(b),
    decreases b.len(),
{
    if b.len() > 0 {
        lemma_entries_of_parts(a, b.drop_last());
        assert((a + b).drop_last() =~= a + b.drop_last());
    }
}

/// Malformed record tolerance: a malformed record anywhere on a page takes
/// nothing from the entries that the records before and behind it give.
pub proof fn lemma_malformed_record_is_skipped(
    before: Seq<RawRecordView>,
    bad: RawRecordView,
    behind: Seq<RawRecordView>,
)
    requires
        entry_of(bad) is Err,
    ensures
        entries_in(before.push(bad) + behind) == entries_in(before) + entries_in(behind),
{
    lemma_entries_of_parts(before.push(bad), behind);
    assert(before.push(bad).drop_last() =~= before);
}

} // verus!
