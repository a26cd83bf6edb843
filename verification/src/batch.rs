// The batched pagination engine.  Given a set of entity keys, it drives one
// independent pagination stream per key to completion in lock-step waves: a
// wave asks for one query fragment per still-incomplete entity, and the
// combined answer is applied back, appending records and advancing cursors.
// The engine owns the cursor, exhaustion and aliasing machinery; what a
// fragment's text looks like and how a raw node becomes a record are supplied
// per list kind.
//
// Keys may hold characters that are illegal in a query alias, so each key is
// canonicalized into an alias (a leading underscore, hyphens replaced); the
// engine keeps key and alias side by side, and results are handed back under
// the original keys.

use vstd::prelude::*;

verus! {

/// The canonical query alias of an entity key: a leading underscore, with
/// every hyphen replaced by an underscore.
pub open spec fn alias_of(key: Seq<char>) -> Seq<char> {
    seq!['_'] + key.map_values(|c: char| if c == '-' { '_' } else { c })
}

/// Canonicalizes an entity key into its query alias.
pub fn sanitize_alias(key: &str) -> (r: String)
    ensures
        r@ == alias_of(key@),
{
    let mut r = String::new();
    r.push('_');
    let n = key.unicode_len();
    let mut i: usize = 0;
    while i < n
        invariant
            n == key@.len(),
            i <= n,
            r@.len() == i + 1,
            r@[0] == '_',
            forall|j: int| 0 <= j < i ==> r@[j + 1] == (if key@[j] == '-' { '_' } else { key@[j] }),
        decreases n - i,
    {
        let c = key.get_char(i);
        if c == '-' {
            r.push('_');
        } else {
            r.push(c);
        }
        i = i + 1;
    }
    proof {
        assert(r@ =~= alias_of(key@));
    }
    r
}

/// One entity's pagination state, at the spec level.
#[verifier::ext_equal]
pub ghost struct EntryModel<R> {
    pub key: Seq<char>,
    pub alias: Seq<char>,
    pub next: bool,
    pub after: Seq<char>,
    pub results: Seq<R>,
}

/// One entity's share of one wave's answer, at the spec level.
#[verifier::ext_equal]
pub ghost struct PageModel<R> {
    pub records: Seq<R>,
    pub has_next: bool,
    pub cursor: Seq<char>,
}

/// One query fragment request, at the spec level.
#[verifier::ext_equal]
pub ghost struct FragModel {
    pub alias: Seq<char>,
    pub id: Seq<char>,
    pub after: Seq<char>,
}

/// A fresh entity: first page (empty cursor), no records yet.
pub open spec fn fresh_entry<R>(key: Seq<char>) -> EntryModel<R> {
    EntryModel {
        key,
        alias: alias_of(key),
        next: true,
        after: Seq::empty(),
        results: Seq::empty(),
    }
}

/// How one entity advances on one wave.  A null payload means the entity is
/// treated as exhausted; a page appends its records in order and installs the
/// next cursor.
pub open spec fn entry_step<R>(e: EntryModel<R>, p: Option<PageModel<R>>) -> EntryModel<R> {
    match p {
        None => EntryModel { next: false, ..e },
        Some(pg) => EntryModel {
            next: pg.has_next,
            after: pg.cursor,
            results: e.results + pg.records,
            ..e
        },
    }
}

/// One entity advanced over a whole sequence of waves, first wave first.
pub open spec fn entry_run<R>(e: EntryModel<R>, waves: Seq<Option<PageModel<R>>>) -> EntryModel<R>
    decreases waves.len(),
{
    if waves.len() == 0 {
        e
    } else {
        entry_run(entry_step(e, waves[0]), waves.drop_first())
    }
}

pub open spec fn frag_of_entry<R>(e: EntryModel<R>) -> FragModel {
    FragModel { alias: e.alias, id: e.key, after: e.after }
}

/// The fragments one wave asks for: one per entity that still has pages, in
/// entity order.
pub open spec fn frags_of<R>(s: Seq<EntryModel<R>>) -> Seq<FragModel>
    decreases s.len(),
{
    if s.len() == 0 {
        Seq::empty()
    } else {
        frags_of(s.drop_last()) + (if s.last().next {
            seq![frag_of_entry(s.last())]
        } else {
            Seq::empty()
        })
    }
}

pub open spec fn distinct_aliases<R>(s: Seq<EntryModel<R>>) -> bool {
    forall|i: int, j: int|
        0 <= i < j < s.len() ==> (#[trigger] s[i].alias) != (#[trigger] s[j].alias)
}

pub open spec fn keys_have_distinct_aliases(keys: Seq<String>) -> bool {
    forall|i: int, j: int|
        0 <= i < j < keys.len() ==> alias_of(#[trigger] keys[i]@) != alias_of(#[trigger] keys[j]@)
}

/// The first page delivered for `alias` in a wave's answer, if any:
/// `Some(None)` records a delivered-but-null payload.
pub open spec fn find_page<R>(
    w: Seq<(Seq<char>, Option<PageModel<R>>)>,
    alias: Seq<char>,
) -> Option<Option<PageModel<R>>>
    decreases w.len(),
{
    if w.len() == 0 {
        None
    } else if w[0].0 == alias {
        Some(w[0].1)
    } else {
        find_page(w.drop_first(), alias)
    }
}

/// How one entity advances on one wave's whole answer: by its page if one
/// was delivered, else unchanged.
pub open spec fn engine_step<R>(
    e: EntryModel<R>,
    w: Seq<(Seq<char>, Option<PageModel<R>>)>,
) -> EntryModel<R> {
    match find_page(w, e.alias) {
        None => e,
        Some(p) => entry_step(e, p),
    }
}

/// Every delivered alias belongs to some entity.
pub open spec fn wave_covers<R>(
    w: Seq<(Seq<char>, Option<PageModel<R>>)>,
    s: Seq<EntryModel<R>>,
) -> bool {
    forall|p: int|
        0 <= p < w.len() ==> exists|i: int|
            0 <= i < s.len() && (#[trigger] s[i].alias) == (#[trigger] w[p]).0
}

/// No alias is delivered twice in one wave.
pub open spec fn wave_distinct<R>(w: Seq<(Seq<char>, Option<PageModel<R>>)>) -> bool {
    forall|p: int, q: int| 0 <= p < q < w.len() ==> (#[trigger] w[p]).0 != (#[trigger] w[q]).0
}

proof fn lemma_find_page_push<R>(
    w: Seq<(Seq<char>, Option<PageModel<R>>)>,
    x: (Seq<char>, Option<PageModel<R>>),
    alias: Seq<char>,
)
    ensures
        find_page(w.push(x), alias) == (if find_page(w, alias) is Some {
            find_page(w, alias)
        } else if x.0 == alias {
            Some(x.1)
        } else {
            None::<Option<PageModel<R>>>
        }),
    decreases w.len(),
{
    if w.len() == 0 {
        assert(w.push(x)[0] == x);
        assert(w.push(x).drop_first() =~= Seq::<(Seq<char>, Option<PageModel<R>>)>::empty());
    } else {
        assert(w.push(x)[0] == w[0]);
        assert(w.push(x).drop_first() =~= w.drop_first().push(x));
        lemma_find_page_push(w.drop_first(), x, alias);
    }
}

/// One query fragment: the entity's alias, its raw id, and the cursor after
/// which the next page starts.
#[derive(Debug, Clone)]
pub struct Fragment {
    pub alias: String,
    pub id: String,
    pub after: String,
}

pub open spec fn frag_model(f: Fragment) -> FragModel {
    FragModel { alias: f.alias@, id: f.id@, after: f.after@ }
}

/// One entity's extracted share of one wave: the records its raw node
/// yielded, and the pagination state for the next wave.
pub struct WavePage<R> {
    pub records: Vec<R>,
    pub has_next: bool,
    pub cursor: String,
}

pub open spec fn page_model<R>(p: WavePage<R>) -> PageModel<R> {
    PageModel { records: p.records@, has_next: p.has_next, cursor: p.cursor@ }
}

pub open spec fn opt_page_model<R>(p: Option<WavePage<R>>) -> Option<PageModel<R>> {
    match p {
        Some(pg) => Some(page_model(pg)),
        None => None,
    }
}

/// A wave's decoded answer as handed to the engine: per delivered alias, the
/// extracted page or `None` for a null payload.
pub open spec fn wave_model<R>(
    pages: Seq<(String, Option<WavePage<R>>)>,
) -> Seq<(Seq<char>, Option<PageModel<R>>)> {
    pages.map_values(|p: (String, Option<WavePage<R>>)| (p.0@, opt_page_model(p.1)))
}

/// One entity's pagination state: original key, sanitized alias, whether
/// more pages remain, the cursor to resume after, and the records gathered
/// so far, first page first.
pub struct BatchEntry<R> {
    pub key: String,
    pub alias: String,
    pub next: bool,
    pub after: String,
    pub results: Vec<R>,
}

pub open spec fn entry_model<R>(e: BatchEntry<R>) -> EntryModel<R> {
    EntryModel {
        key: e.key@,
        alias: e.alias@,
        next: e.next,
        after: e.after@,
        results: e.results@,
    }
}

/// The batched pagination engine's state: one entry per entity key, in the
/// order the keys were given.
pub struct BatchQuery<R> {
    pub entries: Vec<BatchEntry<R>>,
}

impl<R> BatchQuery<R> {
    pub open spec fn model(&self) -> Seq<EntryModel<R>> {
        self.entries@.map_values(|e: BatchEntry<R>| entry_model(e))
    }

    /// Aliases are canonical for their keys and pairwise distinct, so a
    /// delivered page can be re-keyed unambiguously.
    pub open spec fn wf(&self) -> bool {
        &&& distinct_aliases(self.model())
        &&& forall|i: int|
            0 <= i < self.model().len() ==> (#[trigger] self.model()[i].alias) == alias_of(
                self.model()[i].key,
            )
    }

    /// Starts a batch: every key gets a fresh entry, pending its first page.
    pub fn new(keys: &Vec<String>) -> (b: Self)
        requires
            keys_have_distinct_aliases(keys@),
        ensures
            b.wf(),
            b.model().len() == keys@.len(),
            forall|i: int| 0 <= i < keys@.len() ==> b.model()[i] == fresh_entry::<R>(keys@[i]@),
    {
        let mut entries: Vec<BatchEntry<R>> = Vec::new();
        let mut i: usize = 0;
        while i < keys.len()
            invariant
                keys_have_distinct_aliases(keys@),
                i <= keys@.len(),
                entries@.len() == i,
                forall|j: int|
                    0 <= j < i ==> entry_model(#[trigger] entries@[j]) == fresh_entry::<R>(
                        keys@[j]@,
                    ),
            decreases keys@.len() - i,
        {
            let key = &keys[i];
            let alias = sanitize_alias(key.as_str());
            let e = BatchEntry {
                key: key.clone(),
                alias,
                next: true,
                after: String::new(),
                results: Vec::new(),
            };
            proof {
                assert(entry_model(e) =~= fresh_entry::<R>(keys@[i as int]@));
            }
            entries.push(e);
            i = i + 1;
        }
        let b = BatchQuery { entries };
        proof {
            assert(forall|j: int|
                0 <= j < keys@.len() ==> b.model()[j] == fresh_entry::<R>(keys@[j]@));
        }
        b
    }

    /// Whether any entity still has pages to fetch.
    pub fn has_pending(&self) -> (r: bool)
        ensures
            r == exists|i: int| 0 <= i < self.model().len() && (#[trigger] self.model()[i].next),
    {
        let mut i: usize = 0;
        while i < self.entries.len()
            invariant
                i <= self.model().len(),
                forall|j: int| 0 <= j < i ==> !(#[trigger] self.model()[j].next),
            decreases self.model().len() - i,
        {
            if self.entries[i].next {
                proof {
                    assert(self.model()[i as int].next);
                }
                return true;
            }
            i = i + 1;
        }
        false
    }

    /// The fragments for the next wave: one per entity that still has pages,
    /// in entity order.  An exhausted entity contributes nothing.
    pub fn wave_fragments(&self) -> (r: Vec<Fragment>)
        ensures
            r@.map_values(|f: Fragment| frag_model(f)) == frags_of(self.model()),
    {
        let mut r: Vec<Fragment> = Vec::new();
        let mut i: usize = 0;
        while i < self.entries.len()
            invariant
                i <= self.model().len(),
                r@.map_values(|f: Fragment| frag_model(f)) == frags_of(
                    self.model().take(i as int),
                ),
            decreases self.model().len() - i,
        {
            let ghost prefix = self.model().take(i as int);
            let e = &self.entries[i];
            if e.next {
                let f = Fragment { alias: e.alias.clone(), id: e.key.clone(), after: e.after.clone() };
                proof {
                    assert(frag_model(f) =~= frag_of_entry(self.model()[i as int]));
                }
                let ghost old_r = r@;
                r.push(f);
                proof {
                    assert(r@.map_values(|g: Fragment| frag_model(g)) =~= old_r.map_values(
                        |g: Fragment| frag_model(g),
                    ).push(frag_model(f)));
                }
            }
            proof {
                assert(self.model().take(i + 1).drop_last() =~= prefix);
                assert(self.model().take(i + 1).last() == self.model()[i as int]);
                assert(r@.map_values(|g: Fragment| frag_model(g)) =~= frags_of(
                    self.model().take(i + 1),
                ));
            }
            i = i + 1;
        }
        proof {
            assert(self.model().take(self.model().len() as int) =~= self.model());
        }
        r
    }

    /// Applies one wave's answer.  Every delivered alias must belong to some
    /// entity (the answer is keyed by the aliases the wave asked with), and
    /// no alias is delivered twice.  Each entity with a delivered page
    /// advances by it; a delivered null marks the entity exhausted; entities
    /// without a delivery are untouched.
    pub fn apply_wave(&mut self, pages: Vec<(String, Option<WavePage<R>>)>)
        requires
            old(self).wf(),
            wave_covers(wave_model(pages@), old(self).model()),
            wave_distinct(wave_model(pages@)),
        ensures
            final(self).wf(),
            final(self).model().len() == old(self).model().len(),
            forall|i: int|
                0 <= i < final(self).model().len() ==> (#[trigger] final(self).model()[i])
                    == engine_step(old(self).model()[i], wave_model(pages@)),
    {
        let ghost w_all = wave_model(pages@);
        let ghost old_model = old(self).model();
        let mut pages = pages;
        let ghost k: int = 0;
        while pages.len() > 0
            invariant
                0 <= k <= w_all.len(),
                wave_model(pages@) =~= w_all.skip(k),
                wave_distinct(w_all),
                wave_covers(w_all, old_model),
                self.model().len() == old_model.len(),
                distinct_aliases(old_model),
                forall|i: int|
                    0 <= i < old_model.len() ==> (#[trigger] old_model[i].alias) == alias_of(
                        old_model[i].key,
                    ),
                forall|i: int|
                    0 <= i < self.model().len() ==> (#[trigger] self.model()[i]) == engine_step(
                        old_model[i],
                        w_all.take(k),
                    ),
            decreases w_all.len() - k,
        {
            let ghost prev = pages@;
            let pr = pages.remove(0);
            let (alias, pg) = pr;
            proof {
                assert(wave_model(prev) =~= w_all.skip(k));
                assert(wave_model(prev).len() == prev.len());
                assert(w_all.skip(k).len() == w_all.len() - k);
                assert(k < w_all.len());
                assert(wave_model(prev)[0] == (prev[0].0@, opt_page_model(prev[0].1)));
                assert(w_all.skip(k)[0] == w_all[k]);
                assert(w_all[k].0 == alias@ && w_all[k].1 == opt_page_model(pg));
                assert(pages@ =~= prev.drop_first());
                assert(wave_model(pages@).len() == pages@.len());
                assert(w_all.skip(k + 1).len() == w_all.len() - k - 1);
                assert forall|j: int|
                    0 <= j < wave_model(pages@).len() implies wave_model(pages@)[j] == w_all.skip(
                    k + 1,
                )[j] by {
                    assert(wave_model(pages@)[j] == (pages@[j].0@, opt_page_model(pages@[j].1)));
                    assert(pages@[j] == prev[j + 1]);
                    assert(wave_model(prev)[j + 1] == (prev[j + 1].0@, opt_page_model(
                        prev[j + 1].1,
                    )));
                    assert(0 <= j + 1 < w_all.skip(k).len());
                    assert(wave_model(prev)[j + 1] == w_all.skip(k)[j + 1]);
                    assert(w_all.skip(k)[j + 1] == w_all[k + 1 + j]);
                    assert(w_all.skip(k + 1)[j] == w_all[k + 1 + j]);
                }
                assert(wave_model(pages@) =~= w_all.skip(k + 1));
            }
            // find the entity this alias belongs to
            let mut idx: usize = 0;
            let n = self.entries.len();
            while idx < n && !self.entries[idx].alias.eq(&alias)
                invariant
                    idx <= n,
                    n == self.entries@.len(),
                    self.model().len() == old_model.len(),
                    forall|i: int|
                        0 <= i < self.model().len() ==> (#[trigger] self.model()[i]) == engine_step(
                            old_model[i],
                            w_all.take(k),
                        ),
                    forall|i: int| 0 <= i < idx ==> (#[trigger] old_model[i].alias) != alias@,
                decreases n - idx,
            {
                proof {
                    assert(self.model()[idx as int] == engine_step(
                        old_model[idx as int],
                        w_all.take(k),
                    ));
                    assert(self.model()[idx as int].alias == old_model[idx as int].alias);
                    assert(self.entries@[idx as int].alias@ != alias@);
                }
                idx = idx + 1;
            }
            if idx >= n {
                proof {
                    assert(exists|i: int|
                        0 <= i < old_model.len() && (#[trigger] old_model[i].alias) == w_all[k].0);
                    let i = choose|i: int|
                        0 <= i < old_model.len() && (#[trigger] old_model[i].alias) == w_all[k].0;
                    assert(old_model[i].alias == alias@);
                    assert(false);
                }
            }
            proof {
                assert(idx < old_model.len());
                assert(self.model()[idx as int].alias == old_model[idx as int].alias);
                assert(old_model[idx as int].alias == alias@);
            }
            let ghost before_entries = self.entries@;
            let ghost mid_model = self.model();
            let e = self.entries.remove(idx);
            let newe = apply_page_to_entry(e, pg);
            self.entries.insert(idx, newe);
            proof {
                assert(self.entries@ =~= before_entries.update(idx as int, newe));
                assert(entry_model(e) == mid_model[idx as int]);
                // the processed page is this entity's first and only delivery
                assert forall|i: int| 0 <= i < old_model.len() implies (#[trigger] self.model()[i])
                    == engine_step(old_model[i], w_all.take(k + 1)) by {
                    assert(w_all.take(k + 1) =~= w_all.take(k).push(w_all[k]));
                    lemma_find_page_push(w_all.take(k), w_all[k], old_model[i].alias);
                    if i == idx {
                        // no earlier delivery matched this alias: deliveries
                        // are pairwise distinct
                        if find_page(w_all.take(k), old_model[i].alias) is Some {
                            lemma_find_page_index(w_all.take(k), old_model[i].alias);
                            let p = choose|p: int|
                                0 <= p < w_all.take(k).len() && (#[trigger] w_all.take(k)[p]).0
                                    == old_model[i].alias;
                            assert(w_all[p].0 == w_all[k].0);
                            assert(false);
                        }
                        assert(engine_step(old_model[i], w_all.take(k)) == old_model[i]);
                        assert(mid_model[idx as int] == old_model[i]);
                        assert(self.model()[i] == entry_model(newe));
                        assert(engine_step(old_model[i], w_all.take(k + 1)) == entry_step(
                            old_model[i],
                            w_all[k].1,
                        ));
                    } else {
                        assert(old_model[i].alias != alias@);
                        assert(self.entries@[i] == before_entries[i]);
                        assert(self.model()[i] == mid_model[i]);
                        assert(find_page(w_all.take(k + 1), old_model[i].alias) == find_page(
                            w_all.take(k),
                            old_model[i].alias,
                        ));
                    }
                }
                k = k + 1;
            }
        }
        proof {
            assert(wave_model(pages@).len() == pages@.len());
            assert(w_all.skip(k).len() == w_all.len() - k);
            assert(k == w_all.len());
            assert(w_all.take(w_all.len() as int) =~= w_all);
            assert forall|i: int| 0 <= i < self.model().len() implies (#[trigger] self.model()[i])
                == engine_step(old_model[i], w_all) by {
                assert(self.model()[i] == engine_step(old_model[i], w_all.take(k)));
            }
            // keys and aliases are untouched, so well-formedness carries over
            assert forall|i: int|
                0 <= i < self.model().len() implies (#[trigger] self.model()[i]).alias
                    == old_model[i].alias && self.model()[i].key == old_model[i].key by {}
        }
    }

    /// Hands the gathered records back, one pair per entity in the original
    /// order, keyed by the original key, not the alias.
    pub fn finish(self) -> (r: Vec<(String, Vec<R>)>)
        ensures
            r@.len() == self.model().len(),
            forall|i: int|
                0 <= i < r@.len() ==> (#[trigger] r@[i].0@) == self.model()[i].key && r@[i].1@
                    == self.model()[i].results,
    {
        let ghost m = self.model();
        let mut entries = self.entries;
        let mut r: Vec<(String, Vec<R>)> = Vec::new();
        while entries.len() > 0
            invariant
                r@.len() + entries@.len() == m.len(),
                forall|j: int|
                    0 <= j < entries@.len() ==> entry_model(#[trigger] entries@[j]) == m[r@.len()
                        + j],
                forall|i: int|
                    0 <= i < r@.len() ==> (#[trigger] r@[i].0@) == m[i].key && r@[i].1@
                        == m[i].results,
            decreases entries@.len(),
        {
            let e = entries.remove(0);
            r.push((e.key, e.results));
        }
        r
    }
}

/// Where a page was found, its alias occurs among the deliveries.
proof fn lemma_find_page_index<R>(w: Seq<(Seq<char>, Option<PageModel<R>>)>, alias: Seq<char>)
    requires
        find_page(w, alias) is Some,
    ensures
        exists|p: int| 0 <= p < w.len() && (#[trigger] w[p].0) == alias,
    decreases w.len(),
{
    if w.len() > 0 && w[0].0 != alias {
        lemma_find_page_index(w.drop_first(), alias);
        let p = choose|p: int| 0 <= p < w.drop_first().len() && (#[trigger] w.drop_first()[p].0)
            == alias;
        assert(w[p + 1].0 == alias);
    }
}

/// Advances one entry by its delivered page (or null), moving the records in.
fn apply_page_to_entry<R>(e: BatchEntry<R>, p: Option<WavePage<R>>) -> (r: BatchEntry<R>)
    ensures
        entry_model(r) == entry_step(entry_model(e), opt_page_model(p)),
{
    match p {
        None => {
            let r = BatchEntry { next: false, ..e };
            proof {
                assert(entry_model(r) =~= entry_step(entry_model(e), None::<PageModel<R>>));
            }
            r
        },
        Some(pg) => {
            let ghost em = entry_model(e);
            let ghost pm = page_model(pg);
            let mut e = e;
            let mut recs = pg.records;
            e.results.append(&mut recs);
            e.next = pg.has_next;
            e.after = pg.cursor;
            proof {
                assert(entry_model(e) =~= entry_step(em, Some(pm)));
            }
            e
        },
    }
}

// ---------------------------------------------------------------------------
// Laws of the engine.

/// How one entity accumulates over delivered pages: records are appended in
/// wave order, the pending flag follows the last page, and the key and alias
/// never change.
pub proof fn lemma_entry_run_general<R>(e: EntryModel<R>, waves: Seq<PageModel<R>>)
    ensures
        entry_run(e, waves.map_values(|p: PageModel<R>| Some(p))).results == e.results
            + waves.map_values(|p: PageModel<R>| p.records).flatten(),
        entry_run(e, waves.map_values(|p: PageModel<R>| Some(p))).next == (if waves.len() == 0 {
            e.next
        } else {
            waves.last().has_next
        }),
        entry_run(e, waves.map_values(|p: PageModel<R>| Some(p))).key == e.key,
        entry_run(e, waves.map_values(|p: PageModel<R>| Some(p))).alias == e.alias,
    decreases waves.len(),
{
    let lifted = waves.map_values(|p: PageModel<R>| Some(p));
    if waves.len() == 0 {
        assert(e.results + waves.map_values(|p: PageModel<R>| p.records).flatten() =~= e.results);
    } else {
        let e1 = entry_step(e, Some(waves[0]));
        lemma_entry_run_general(e1, waves.drop_first());
        assert(lifted.drop_first() =~= waves.drop_first().map_values(
            |p: PageModel<R>| Some(p),
        ));
        assert(waves.map_values(|p: PageModel<R>| p.records).drop_first() =~= waves.drop_first()
            .map_values(|p: PageModel<R>| p.records));
        assert(entry_run(e, lifted) == entry_run(e1, lifted.drop_first()));
        assert((e.results + waves[0].records) + waves.drop_first().map_values(
            |p: PageModel<R>| p.records,
        ).flatten() =~= e.results + waves.map_values(|p: PageModel<R>| p.records).flatten());
        if waves.len() > 1 {
            assert(waves.drop_first().last() == waves.last());
        }
    }
}

/// Pagination completeness: an entity whose remote data spans `K` pages,
/// where exactly the last page says no-more, is still pending before each of
/// the `K` waves (so exactly `K` waves query it), is exhausted afterwards,
/// and has gathered the union of the pages' records in first-to-last order.
pub proof fn lemma_pagination_completeness<R>(key: Seq<char>, waves: Seq<PageModel<R>>)
    requires
        waves.len() > 0,
        forall|j: int| 0 <= j < waves.len() ==> ((#[trigger] waves[j].has_next) <==> j + 1 < waves.len()),
    ensures
        entry_run(fresh_entry(key), waves.map_values(|p: PageModel<R>| Some(p))).results
            == waves.map_values(|p: PageModel<R>| p.records).flatten(),
        !entry_run(fresh_entry(key), waves.map_values(|p: PageModel<R>| Some(p))).next,
        forall|j: int|
            0 <= j < waves.len() ==> entry_run(
                fresh_entry(key),
                (#[trigger] waves.take(j)).map_values(|p: PageModel<R>| Some(p)),
            ).next,
{
    let e0 = fresh_entry::<R>(key);
    lemma_entry_run_general(e0, waves);
    assert(e0.results + waves.map_values(|p: PageModel<R>| p.records).flatten() =~= waves
        .map_values(|p: PageModel<R>| p.records).flatten());
    assert forall|j: int| 0 <= j < waves.len() implies entry_run(
        e0,
        (#[trigger] waves.take(j)).map_values(|p: PageModel<R>| Some(p)),
    ).next by {
        lemma_entry_run_general(e0, waves.take(j));
        if j > 0 {
            assert(waves.take(j).last() == waves[j - 1]);
        }
    }
}

/// Every requested fragment comes from some still-pending entity.
proof fn lemma_frags_from_entries<R>(s: Seq<EntryModel<R>>, j: int)
    requires
        0 <= j < frags_of(s).len(),
    ensures
        exists|k: int|
            0 <= k < s.len() && (#[trigger] s[k].next) && frags_of(s)[j] == frag_of_entry(s[k]),
    decreases s.len(),
{
    if s.len() > 0 {
        let head = frags_of(s.drop_last());
        if j < head.len() {
            lemma_frags_from_entries(s.drop_last(), j);
            let k = choose|k: int|
                0 <= k < s.drop_last().len() && (#[trigger] s.drop_last()[k].next) && frags_of(
                    s.drop_last(),
                )[j] == frag_of_entry(s.drop_last()[k]);
            assert(s[k].next && frags_of(s)[j] == frag_of_entry(s[k]));
        } else {
            assert(s.last().next);
            assert(s[s.len() - 1].next && frags_of(s)[j] == frag_of_entry(s[s.len() - 1]));
        }
    }
}

/// Cross-entity independence: once an entity is exhausted, no later wave's
/// fragment list mentions its alias — other entities go on being queried
/// without it.
pub proof fn lemma_cross_entity_independence<R>(s: Seq<EntryModel<R>>, i: int)
    requires
        distinct_aliases(s),
        0 <= i < s.len(),
        !s[i].next,
    ensures
        forall|j: int| 0 <= j < frags_of(s).len() ==> (#[trigger] frags_of(s)[j].alias) != s[i].alias,
{
    assert forall|j: int| 0 <= j < frags_of(s).len() implies (#[trigger] frags_of(s)[j].alias)
        != s[i].alias by {
        lemma_frags_from_entries(s, j);
        let k = choose|k: int|
            0 <= k < s.len() && (#[trigger] s[k].next) && frags_of(s)[j] == frag_of_entry(s[k]);
        if s[k].alias == s[i].alias {
            assert(k == i);
        }
    }
}

/// One entity advanced over a whole sequence of engine waves, first wave
/// first.
pub open spec fn engine_run<R>(
    e: EntryModel<R>,
    waves: Seq<Seq<(Seq<char>, Option<PageModel<R>>)>>,
) -> EntryModel<R>
    decreases waves.len(),
{
    if waves.len() == 0 {
        e
    } else {
        engine_run(engine_step(e, waves[0]), waves.drop_first())
    }
}

/// What a sequence of waves delivers to one alias, in wave order: one entry
/// per wave that carried the alias (a null payload included), nothing for
/// waves that did not mention it.
pub open spec fn deliveries_for<R>(
    waves: Seq<Seq<(Seq<char>, Option<PageModel<R>>)>>,
    alias: Seq<char>,
) -> Seq<Option<PageModel<R>>>
    decreases waves.len(),
{
    if waves.len() == 0 {
        Seq::empty()
    } else {
        (match find_page(waves[0], alias) {
            Some(p) => seq![p],
            None => Seq::empty(),
        }) + deliveries_for(waves.drop_first(), alias)
    }
}

/// A sequence of waves acts on one entity exactly as that entity's own
/// deliveries do, in order.  This ties the engine's wave-by-wave behavior,
/// which `apply_wave` guarantees, to the per-entity run the pagination laws
/// below speak about.
pub proof fn lemma_engine_run_is_entry_run<R>(
    e: EntryModel<R>,
    waves: Seq<Seq<(Seq<char>, Option<PageModel<R>>)>>,
)
    ensures
        engine_run(e, waves) == entry_run(e, deliveries_for(waves, e.alias)),
    decreases waves.len(),
{
    if waves.len() > 0 {
        let e1 = engine_step(e, waves[0]);
        let rest = deliveries_for(waves.drop_first(), e.alias);
        match find_page(waves[0], e.alias) {
            Some(p) => {
                assert(e1 == entry_step(e, p));
                assert(e1.alias == e.alias);
                lemma_engine_run_is_entry_run(e1, waves.drop_first());
                assert(deliveries_for(waves, e.alias) == seq![p] + rest);
                assert((seq![p] + rest)[0] == p);
                assert((seq![p] + rest).drop_first() =~= rest);
            },
            None => {
                assert(e1 == e);
                lemma_engine_run_is_entry_run(e1, waves.drop_first());
                assert(deliveries_for(waves, e.alias) =~= rest);
            },
        }
    }
}

/// Pagination completeness, seen from the engine: when a sequence of waves
/// delivers to an entity exactly its `K` remote pages, of which precisely
/// the last says no-more, the entity ends exhausted and holds the union of
/// all pages' records in first-page-to-last-page order.
pub proof fn lemma_engine_pagination_completeness<R>(
    key: Seq<char>,
    waves: Seq<Seq<(Seq<char>, Option<PageModel<R>>)>>,
    pages: Seq<PageModel<R>>,
)
    requires
        deliveries_for(waves, alias_of(key)) == pages.map_values(|p: PageModel<R>| Some(p)),
        pages.len() > 0,
        forall|j: int| 0 <= j < pages.len() ==> ((#[trigger] pages[j].has_next) <==> j + 1 < pages.len()),
    ensures
        engine_run(fresh_entry::<R>(key), waves).results == pages.map_values(
            |p: PageModel<R>| p.records,
        ).flatten(),
        !engine_run(fresh_entry::<R>(key), waves).next,
{
    lemma_engine_run_is_entry_run(fresh_entry::<R>(key), waves);
    lemma_pagination_completeness(key, pages);
}

/// Alias round-trip: however many waves run, an entity keeps the original
/// key it was created with (while its alias stays the sanitized form, which
/// is never equal to the key itself).  Together with `finish`, which keys
/// results by `key`, a caller always sees its own keys back.
pub proof fn lemma_alias_round_trip<R>(key: Seq<char>, waves: Seq<Option<PageModel<R>>>)
    ensures
        entry_run(fresh_entry::<R>(key), waves).key == key,
        entry_run(fresh_entry::<R>(key), waves).alias == alias_of(key),
        alias_of(key) != key,
{
    lemma_entry_run_any(fresh_entry::<R>(key), waves);
    assert(alias_of(key).len() == key.len() + 1);
}

/// Key and alias are invariant under any sequence of waves, delivered or not.
proof fn lemma_entry_run_any<R>(e: EntryModel<R>, waves: Seq<Option<PageModel<R>>>)
    ensures
        entry_run(e, waves).key == e.key,
        entry_run(e, waves).alias == e.alias,
    decreases waves.len(),
{
    if waves.len() > 0 {
        lemma_entry_run_any(entry_step(e, waves[0]), waves.drop_first());
    }
}

} // verus!

