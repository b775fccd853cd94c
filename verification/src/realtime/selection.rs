//! Per-view light selection: the directional and punctual lights that a
//! raytraced view traces, in fixed-size slots with counts as the trace shader
//! reads them.
//!
//! Directional lights are taken in order up to [`MAX_DIRECTIONAL_LIGHTS`].
//! Punctual (point and spot) lights are ordered by descending score, ties kept in
//! the order they were offered in, and the first [`MAX_PUNCTUAL_LIGHTS`] are taken. Light
//! payloads are generic: the renderer stores GPU light records in them.

use super::shared::{MAX_DIRECTIONAL_LIGHTS, MAX_PUNCTUAL_LIGHTS};
use vstd::prelude::*;

verus! {

broadcast use vstd::seq::group_seq_axioms;

/// The slots and counts of a light selection.
pub struct LightSelectionView<D, P> {
    /// Every directional slot, used or not.
    pub directional_slots: Seq<D>,
    /// How many directional slots, from the first, hold selected lights.
    pub directional_count: nat,
    /// Every punctual slot, used or not.
    pub punctual_slots: Seq<P>,
    /// How many punctual slots, from the first, hold selected lights.
    pub punctual_count: nat,
}

impl<D, P> LightSelectionView<D, P> {
    /// The slot arrays have their fixed sizes and the counts fit in them.
    pub open spec fn well_formed(self) -> bool {
        &&& self.directional_slots.len() == MAX_DIRECTIONAL_LIGHTS
        &&& self.directional_count <= MAX_DIRECTIONAL_LIGHTS
        &&& self.punctual_slots.len() == MAX_PUNCTUAL_LIGHTS
        &&& self.punctual_count <= MAX_PUNCTUAL_LIGHTS
    }

    /// The selected directional lights, in slot order.
    pub open spec fn selected_directional(self) -> Seq<D> {
        self.directional_slots.take(self.directional_count as int)
    }

    /// The selected punctual lights, in slot order.
    pub open spec fn selected_punctual(self) -> Seq<P> {
        self.punctual_slots.take(self.punctual_count as int)
    }
}

/// The lights that one raytraced view traces.
pub struct RaytraceLightSelection<D, P> {
    directional_lights: Vec<D>,
    directional_light_count: u32,
    punctual_lights: Vec<P>,
    punctual_light_count: u32,
}

impl<D, P> View for RaytraceLightSelection<D, P> {
    type V = LightSelectionView<D, P>;

    closed spec fn view(&self) -> LightSelectionView<D, P> {
        LightSelectionView {
            directional_slots: self.directional_lights@,
            directional_count: self.directional_light_count as nat,
            punctual_slots: self.punctual_lights@,
            punctual_count: self.punctual_light_count as nat,
        }
    }
}

/// `count` slots of `fill`.
pub open spec fn filled<T>(count: nat, fill: T) -> Seq<T> {
    Seq::new(count, |i: int| fill)
}

/// `count` copies of `fill`.
fn filled_vec<T: Copy>(count: usize, fill: T) -> (slots: Vec<T>)
    ensures
        slots@ == filled(count as nat, fill),
{
    let mut slots: Vec<T> = Vec::new();
    let mut i: usize = 0;
    while i < count
        invariant
            i <= count,
            slots@ == filled(i as nat, fill),
        decreases count - i,
    {
        slots.push(fill);
        i += 1;
    }
    slots
}

impl<D, P> RaytraceLightSelection<D, P> {
    /// An empty selection whose slots all hold the given fill records.
    pub fn new(fill_directional: D, fill_punctual: P) -> (selection: Self) where
        D: Copy,
        P: Copy,

        ensures
            selection@.well_formed(),
            selection@.directional_slots == filled(MAX_DIRECTIONAL_LIGHTS as nat, fill_directional),
            selection@.directional_count == 0,
            selection@.punctual_slots == filled(MAX_PUNCTUAL_LIGHTS as nat, fill_punctual),
            selection@.punctual_count == 0,
    {
        RaytraceLightSelection {
            directional_lights: filled_vec(MAX_DIRECTIONAL_LIGHTS, fill_directional),
            directional_light_count: 0,
            punctual_lights: filled_vec(MAX_PUNCTUAL_LIGHTS, fill_punctual),
            punctual_light_count: 0,
        }
    }

    /// Every directional slot, used or not.
    pub fn directional_lights(&self) -> (slots: &Vec<D>)
        ensures
            slots@ == self@.directional_slots,
    {
        &self.directional_lights
    }

    /// How many directional slots hold selected lights.
    pub fn directional_light_count(&self) -> (count: u32)
        ensures
            count == self@.directional_count,
    {
        self.directional_light_count
    }

    /// Every punctual slot, used or not.
    pub fn punctual_lights(&self) -> (slots: &Vec<P>)
        ensures
            slots@ == self@.punctual_slots,
    {
        &self.punctual_lights
    }

    /// How many punctual slots hold selected lights.
    pub fn punctual_light_count(&self) -> (count: u32)
        ensures
            count == self@.punctual_count,
    {
        self.punctual_light_count
    }
}

/// A selection after offering it one more directional light: the light takes
/// the first free slot, or is dropped when every slot is taken.
pub open spec fn spec_push_directional<D, P>(
    selection: LightSelectionView<D, P>,
    light: D,
) -> LightSelectionView<D, P> {
    if selection.directional_count < MAX_DIRECTIONAL_LIGHTS {
        LightSelectionView {
            directional_slots: selection.directional_slots.update(
                selection.directional_count as int,
                light,
            ),
            directional_count: selection.directional_count + 1,
            ..selection
        }
    } else {
        selection
    }
}

/// A selection after offering it one more punctual light: the light takes the
/// first free slot, or is dropped when every slot is taken.
pub open spec fn spec_push_punctual<D, P>(
    selection: LightSelectionView<D, P>,
    light: P,
) -> LightSelectionView<D, P> {
    if selection.punctual_count < MAX_PUNCTUAL_LIGHTS {
        LightSelectionView {
            punctual_slots: selection.punctual_slots.update(selection.punctual_count as int, light),
            punctual_count: selection.punctual_count + 1,
            ..selection
        }
    } else {
        selection
    }
}

/// Offer a directional light to a selection.
pub fn push_directional_light<D, P>(selection: &mut RaytraceLightSelection<D, P>, light: D)
    requires
        old(selection)@.well_formed(),
    ensures
        final(selection)@ == spec_push_directional(old(selection)@, light),
{
    if (selection.directional_light_count as usize) < MAX_DIRECTIONAL_LIGHTS {
        let slot = selection.directional_light_count as usize;
        selection.directional_lights.set(slot, light);
        selection.directional_light_count = selection.directional_light_count + 1;
    }
}

/// Offer a punctual light to a selection.
pub fn push_punctual_light<D, P>(selection: &mut RaytraceLightSelection<D, P>, light: P)
    requires
        old(selection)@.well_formed(),
    ensures
        final(selection)@ == spec_push_punctual(old(selection)@, light),
{
    if (selection.punctual_light_count as usize) < MAX_PUNCTUAL_LIGHTS {
        let slot = selection.punctual_light_count as usize;
        selection.punctual_lights.set(slot, light);
        selection.punctual_light_count = selection.punctual_light_count + 1;
    }
}

/// Offering a light keeps the lights already selected, in order, and selects the
/// new one exactly when a slot is free; the free slots keep their contents.
pub proof fn lemma_push_keeps_selection<D, P>(
    selection: LightSelectionView<D, P>,
    directional: D,
    punctual: P,
)
    requires
        selection.well_formed(),
    ensures
        spec_push_directional(selection, directional).well_formed(),
        spec_push_directional(selection, directional).selected_directional() == if selection.directional_count < MAX_DIRECTIONAL_LIGHTS {
            selection.selected_directional().push(directional)
        } else {
            selection.selected_directional()
        },
        spec_push_punctual(selection, punctual).well_formed(),
        spec_push_punctual(selection, punctual).selected_punctual() == if selection.punctual_count
            < MAX_PUNCTUAL_LIGHTS {
            selection.selected_punctual().push(punctual)
        } else {
            selection.selected_punctual()
        },
        forall|i: int|
            selection.directional_count < i < MAX_DIRECTIONAL_LIGHTS ==> #[trigger] spec_push_directional(
                selection,
                directional,
            ).directional_slots[i] == selection.directional_slots[i],
        forall|i: int|
            selection.punctual_count < i < MAX_PUNCTUAL_LIGHTS ==> #[trigger] spec_push_punctual(
                selection,
                punctual,
            ).punctual_slots[i] == selection.punctual_slots[i],
{
    let pushed_d = spec_push_directional(selection, directional);
    if selection.directional_count < MAX_DIRECTIONAL_LIGHTS {
        assert(pushed_d.selected_directional() =~= selection.selected_directional().push(
            directional,
        ));
    }
    let pushed_p = spec_push_punctual(selection, punctual);
    if selection.punctual_count < MAX_PUNCTUAL_LIGHTS {
        assert(pushed_p.selected_punctual() =~= selection.selected_punctual().push(punctual));
    }
}


/// A selection after offering it each directional light of `lights`, in order.
pub open spec fn spec_push_all_directional<D, P>(
    selection: LightSelectionView<D, P>,
    lights: Seq<D>,
) -> LightSelectionView<D, P>
    decreases lights.len(),
{
    if lights.len() == 0 {
        selection
    } else {
        spec_push_directional(spec_push_all_directional(selection, lights.drop_last()), lights.last())
    }
}

/// A selection after offering it each punctual light of `lights`, in order.
pub open spec fn spec_push_all_punctual<D, P>(
    selection: LightSelectionView<D, P>,
    lights: Seq<P>,
) -> LightSelectionView<D, P>
    decreases lights.len(),
{
    if lights.len() == 0 {
        selection
    } else {
        spec_push_punctual(spec_push_all_punctual(selection, lights.drop_last()), lights.last())
    }
}

/// Offering directional lights one by one to a selection that has none: the
/// first `min(n, MAX_DIRECTIONAL_LIGHTS)` lights fill the slots in order, the
/// later slots keep their contents, the punctual side is untouched, and once
/// every slot is taken a further light changes nothing.
pub proof fn lemma_push_all_directional<D, P>(selection: LightSelectionView<D, P>, lights: Seq<D>)
    requires
        selection.well_formed(),
        selection.directional_count == 0,
    ensures
        ({
            let after = spec_push_all_directional(selection, lights);
            let count = min_count(lights.len(), MAX_DIRECTIONAL_LIGHTS as nat);
            &&& after.well_formed()
            &&& after.directional_count == count
            &&& after.directional_slots == lights.take(count as int)
                + selection.directional_slots.skip(count as int)
            &&& after.selected_directional() == lights.take(count as int)
            &&& after.punctual_slots == selection.punctual_slots
            &&& after.punctual_count == selection.punctual_count
        }),
        forall|light: D|
            #![trigger spec_push_directional(spec_push_all_directional(selection, lights), light)]
            lights.len() >= MAX_DIRECTIONAL_LIGHTS ==> spec_push_directional(
                spec_push_all_directional(selection, lights),
                light,
            ) == spec_push_all_directional(selection, lights),
    decreases lights.len(),
{
    if lights.len() > 0 {
        let rest = lights.drop_last();
        lemma_push_all_directional(selection, rest);
        let before = spec_push_all_directional(selection, rest);
        let n = before.directional_count as int;
        if n < MAX_DIRECTIONAL_LIGHTS {
            assert(lights.take(n + 1) =~= rest.take(n).push(lights.last()));
            assert(spec_push_all_directional(selection, lights).directional_slots =~= lights.take(
                n + 1,
            ) + selection.directional_slots.skip(n + 1));
        } else {
            assert(lights.take(n) =~= rest.take(n));
        }
    }
    let after = spec_push_all_directional(selection, lights);
    assert(after.selected_directional() =~= lights.take(after.directional_count as int));
}

/// Offering punctual lights one by one to a selection that has none: the first
/// `min(n, MAX_PUNCTUAL_LIGHTS)` lights fill the slots in order, the later slots
/// keep their contents, the directional side is untouched, and once every slot
/// is taken a further light changes nothing.
pub proof fn lemma_push_all_punctual<D, P>(selection: LightSelectionView<D, P>, lights: Seq<P>)
    requires
        selection.well_formed(),
        selection.punctual_count == 0,
    ensures
        ({
            let after = spec_push_all_punctual(selection, lights);
            let count = min_count(lights.len(), MAX_PUNCTUAL_LIGHTS as nat);
            &&& after.well_formed()
            &&& after.punctual_count == count
            &&& after.punctual_slots == lights.take(count as int) + selection.punctual_slots.skip(
                count as int,
            )
            &&& after.selected_punctual() == lights.take(count as int)
            &&& after.directional_slots == selection.directional_slots
            &&& after.directional_count == selection.directional_count
        }),
        forall|light: P|
            #![trigger spec_push_punctual(spec_push_all_punctual(selection, lights), light)]
            lights.len() >= MAX_PUNCTUAL_LIGHTS ==> spec_push_punctual(
                spec_push_all_punctual(selection, lights),
                light,
            ) == spec_push_all_punctual(selection, lights),
    decreases lights.len(),
{
    if lights.len() > 0 {
        let rest = lights.drop_last();
        lemma_push_all_punctual(selection, rest);
        let before = spec_push_all_punctual(selection, rest);
        let n = before.punctual_count as int;
        if n < MAX_PUNCTUAL_LIGHTS {
            assert(lights.take(n + 1) =~= rest.take(n).push(lights.last()));
            assert(spec_push_all_punctual(selection, lights).punctual_slots =~= lights.take(n + 1)
                + selection.punctual_slots.skip(n + 1));
        } else {
            assert(lights.take(n) =~= rest.take(n));
        }
    }
    let after = spec_push_all_punctual(selection, lights);
    assert(after.selected_punctual() =~= lights.take(after.punctual_count as int));
}

/// A punctual light offered for selection: its sort key (see
/// [`punctual_score_key`]) and its record.
pub type ScoredLight<P> = (u32, P);

/// The key under which a score's `f32` bit pattern sorts: as unsigned integers,
/// keys are ordered as `f32::total_cmp` orders the scores (negative NaNs, then
/// negative numbers from -infinity up to -0, then +0 up to +infinity, then
/// positive NaNs). A set sign bit flips every bit; a clear one sets the sign bit.
pub open spec fn score_key(score_bits: u32) -> u32 {
    if score_bits >= 0x8000_0000 {
        (0xFFFF_FFFFu32 - score_bits) as u32
    } else {
        (score_bits + 0x8000_0000u32) as u32
    }
}

/// The sort key of a punctual light's score, from the score's bit pattern.
pub fn punctual_score_key(score_bits: u32) -> (key: u32)
    ensures
        key == score_key(score_bits),
{
    if score_bits >= 0x8000_0000 {
        0xFFFF_FFFFu32 - score_bits
    } else {
        score_bits + 0x8000_0000u32
    }
}

/// The key order follows the sign-magnitude order of the bit patterns: every
/// negative pattern sorts below every positive one, larger magnitudes sort lower
/// among negatives and higher among positives, and distinct patterns get
/// distinct keys.
pub proof fn lemma_score_key_order(a: u32, b: u32)
    ensures
        a < 0x8000_0000 && b >= 0x8000_0000 ==> score_key(b) < score_key(a),
        a < 0x8000_0000 && b < 0x8000_0000 ==> (score_key(a) < score_key(b) <==> a < b),
        a >= 0x8000_0000 && b >= 0x8000_0000 ==> (score_key(a) < score_key(b) <==> b < a),
        a != b ==> score_key(a) != score_key(b),
{
}

/// The first position in `sorted` whose key is below `key`, or its length.
pub open spec fn first_below<P>(sorted: Seq<ScoredLight<P>>, key: u32) -> int
    decreases sorted.len(),
{
    if sorted.len() == 0 {
        0
    } else if sorted[0].0 < key {
        0
    } else {
        1 + first_below(sorted.drop_first(), key)
    }
}

/// Insert a light after every light whose key is at least its own.
pub open spec fn insert_by_score<P>(sorted: Seq<ScoredLight<P>>, light: ScoredLight<P>) -> Seq<
    ScoredLight<P>,
> {
    sorted.insert(first_below(sorted, light.0), light)
}

/// Lights in descending key order, lights of equal key in the order they were offered in
/// (a stable sort, as `sort_by` with a reversed `total_cmp` gives).
pub open spec fn sort_by_score<P>(lights: Seq<ScoredLight<P>>) -> Seq<ScoredLight<P>>
    decreases lights.len(),
{
    if lights.len() == 0 {
        lights
    } else {
        insert_by_score(sort_by_score(lights.drop_last()), lights.last())
    }
}

/// Keys never increase along the sequence.
pub open spec fn keys_descending<P>(lights: Seq<ScoredLight<P>>) -> bool {
    forall|i: int, j: int| 0 <= i < j < lights.len() ==> lights[i].0 >= lights[j].0
}

/// The records of the lights, in order.
pub open spec fn records<P>(lights: Seq<ScoredLight<P>>) -> Seq<P> {
    lights.map_values(|light: ScoredLight<P>| light.1)
}

/// Whether a light's key is `key`.
pub open spec fn key_is<P>(key: u32) -> spec_fn(ScoredLight<P>) -> bool {
    |light: ScoredLight<P>| light.0 == key
}

/// The lights whose key is `key`, in order.
pub open spec fn with_key<P>(lights: Seq<ScoredLight<P>>, key: u32) -> Seq<ScoredLight<P>> {
    lights.filter(key_is(key))
}

proof fn lemma_first_below<P>(sorted: Seq<ScoredLight<P>>, key: u32)
    ensures
        0 <= first_below(sorted, key) <= sorted.len(),
        forall|j: int| 0 <= j < first_below(sorted, key) ==> sorted[j].0 >= key,
        first_below(sorted, key) < sorted.len() ==> sorted[first_below(sorted, key)].0 < key,
    decreases sorted.len(),
{
    if sorted.len() > 0 && sorted[0].0 >= key {
        lemma_first_below(sorted.drop_first(), key);
        assert forall|j: int| 0 <= j < first_below(sorted, key) implies sorted[j].0 >= key by {
            if j > 0 {
                assert(sorted[j] == sorted.drop_first()[j - 1]);
            }
        }
    }
}

proof fn lemma_first_below_unique<P>(sorted: Seq<ScoredLight<P>>, key: u32, pos: int)
    requires
        0 <= pos <= sorted.len(),
        forall|j: int| 0 <= j < pos ==> sorted[j].0 >= key,
        pos < sorted.len() ==> sorted[pos].0 < key,
    ensures
        first_below(sorted, key) == pos,
    decreases sorted.len(),
{
    if sorted.len() > 0 && pos > 0 {
        assert forall|j: int| 0 <= j < pos - 1 implies sorted.drop_first()[j].0 >= key by {
            assert(sorted.drop_first()[j] == sorted[j + 1]);
        }
        lemma_first_below_unique(sorted.drop_first(), key, pos - 1);
    }
}

proof fn lemma_insert_by_score_sorted<P>(sorted: Seq<ScoredLight<P>>, light: ScoredLight<P>)
    requires
        keys_descending(sorted),
    ensures
        keys_descending(insert_by_score(sorted, light)),
        insert_by_score(sorted, light).len() == sorted.len() + 1,
{
    let pos = first_below(sorted, light.0);
    lemma_first_below(sorted, light.0);
    sorted.insert_ensures(pos, light);
    let out = insert_by_score(sorted, light);
    assert forall|i: int, j: int| 0 <= i < j < out.len() implies out[i].0 >= out[j].0 by {
        if j < pos {
        } else if j == pos {
        } else if i < pos {
            assert(out[j] == sorted[j - 1]);
            if pos < sorted.len() {
                assert(sorted[j - 1].0 <= sorted[pos].0);
            }
        } else if i == pos {
            assert(out[j] == sorted[j - 1]);
            assert(sorted[j - 1].0 <= sorted[pos].0);
        } else {
            assert(out[i] == sorted[i - 1]);
            assert(out[j] == sorted[j - 1]);
        }
    }
}

/// The sorted lights are in descending key order.
pub proof fn lemma_sort_by_score_descending<P>(lights: Seq<ScoredLight<P>>)
    ensures
        keys_descending(sort_by_score(lights)),
        sort_by_score(lights).len() == lights.len(),
    decreases lights.len(),
{
    if lights.len() > 0 {
        lemma_sort_by_score_descending(lights.drop_last());
        lemma_insert_by_score_sorted(sort_by_score(lights.drop_last()), lights.last());
    }
}

/// Sorting loses no light and invents none.
pub proof fn lemma_sort_by_score_permutes<P>(lights: Seq<ScoredLight<P>>)
    ensures
        sort_by_score(lights).to_multiset() == lights.to_multiset(),
    decreases lights.len(),
{
    broadcast use vstd::seq_lib::to_multiset_insert, vstd::seq_lib::to_multiset_build;

    if lights.len() > 0 {
        let rest = lights.drop_last();
        lemma_sort_by_score_permutes(rest);
        let sorted_rest = sort_by_score(rest);
        lemma_first_below(sorted_rest, lights.last().0);
        assert(lights == rest.push(lights.last()));
        assert(sort_by_score(lights).to_multiset() == sorted_rest.to_multiset().insert(
            lights.last(),
        ));
    }
}

/// Sorting is stable: the lights of any one key come out in the order they
/// went in.
pub proof fn lemma_sort_by_score_stable<P>(lights: Seq<ScoredLight<P>>, key: u32)
    ensures
        with_key(sort_by_score(lights), key) == with_key(lights, key),
    decreases lights.len(),
{
    broadcast use vstd::seq::Seq::filter_distributes_over_add, vstd::seq::Seq::lemma_filter_push;

    let pred = key_is::<P>(key);
    if lights.len() == 0 {
        reveal(Seq::filter);
    } else {
        let rest = lights.drop_last();
        let last = lights.last();
        lemma_sort_by_score_stable(rest, key);
        lemma_sort_by_score_descending(rest);
        let sorted_rest = sort_by_score(rest);
        let pos = first_below(sorted_rest, last.0);
        lemma_first_below(sorted_rest, last.0);
        let front = sorted_rest.subrange(0, pos);
        let back = sorted_rest.subrange(pos, sorted_rest.len() as int);
        assert(sorted_rest == front + back);
        assert(sort_by_score(lights) == front.push(last) + back);
        assert(lights == rest.push(last));
        assert(front.push(last).filter(pred) == if pred(last) {
            front.filter(pred).push(last)
        } else {
            front.filter(pred)
        });
        if last.0 == key {
            assert forall|i: int| 0 <= i < back.len() implies !pred(back[i]) by {
                assert(back[i] == sorted_rest[pos + i]);
                assert(sorted_rest[pos + i].0 <= sorted_rest[pos].0);
            }
            back.lemma_all_neg_filter_empty(pred);
            assert(back.filter(pred) =~= Seq::<ScoredLight<P>>::empty());
            assert(with_key(sort_by_score(lights), key) =~= front.filter(pred).push(last));
            assert(with_key(sorted_rest, key) =~= front.filter(pred));
        } else {
            assert(with_key(sort_by_score(lights), key) =~= front.filter(pred) + back.filter(
                pred,
            ));
        }
    }
}

/// Sort punctual lights by descending key, ties in the order they were offered in.
pub fn sort_scored_lights<P: Copy>(scored: &Vec<ScoredLight<P>>) -> (sorted: Vec<ScoredLight<P>>)
    ensures
        sorted@ == sort_by_score(scored@),
{
    let mut sorted: Vec<ScoredLight<P>> = Vec::new();
    let mut i: usize = 0;
    while i < scored.len()
        invariant
            i <= scored.len(),
            sorted@ == sort_by_score(scored@.take(i as int)),
        decreases scored.len() - i,
    {
        let light = scored[i];
        let mut pos: usize = 0;
        while pos < sorted.len() && sorted[pos].0 >= light.0
            invariant
                pos <= sorted.len(),
                forall|j: int| 0 <= j < pos ==> sorted@[j].0 >= light.0,
            decreases sorted.len() - pos,
        {
            pos += 1;
        }
        proof {
            lemma_first_below_unique(sorted@, light.0, pos as int);
            assert(scored@.take(i + 1).drop_last() == scored@.take(i as int));
            assert(scored@.take(i + 1).last() == light);
        }
        sorted.insert(pos, light);
        i += 1;
    }
    proof {
        assert(scored@.take(scored.len() as int) == scored@);
    }
    sorted
}


/// The smaller of two counts.
pub open spec fn min_count(a: nat, b: nat) -> nat {
    if a <= b {
        a
    } else {
        b
    }
}

/// The selection of a view that is offered `directional` lights in order and
/// `punctual` lights with their keys: the first directional lights up to the slot
/// count, and the punctual lights of highest key, in descending key order (ties
/// in offered order), up to the slot count; the unused slots hold the fill
/// records.
pub open spec fn spec_light_selection<D, P>(
    directional: Seq<D>,
    punctual: Seq<ScoredLight<P>>,
    fill_directional: D,
    fill_punctual: P,
) -> LightSelectionView<D, P> {
    let directional_count = min_count(directional.len(), MAX_DIRECTIONAL_LIGHTS as nat);
    let ranked = records(sort_by_score(punctual));
    let punctual_count = min_count(punctual.len(), MAX_PUNCTUAL_LIGHTS as nat);
    LightSelectionView {
        directional_slots: directional.take(directional_count as int) + filled(
            (MAX_DIRECTIONAL_LIGHTS - directional_count) as nat,
            fill_directional,
        ),
        directional_count,
        punctual_slots: ranked.take(punctual_count as int) + filled(
            (MAX_PUNCTUAL_LIGHTS - punctual_count) as nat,
            fill_punctual,
        ),
        punctual_count,
    }
}

/// Build the light selection of a view: offer every directional light in order,
/// then every punctual light in descending key order.
pub fn select_raytrace_lights<D: Copy, P: Copy>(
    directional: &Vec<D>,
    punctual: &Vec<ScoredLight<P>>,
    fill_directional: D,
    fill_punctual: P,
) -> (selection: RaytraceLightSelection<D, P>)
    ensures
        selection@ == spec_light_selection(directional@, punctual@, fill_directional, fill_punctual),
        selection@.well_formed(),
{
    let mut selection = RaytraceLightSelection::new(fill_directional, fill_punctual);
    let mut i: usize = 0;
    while i < directional.len()
        invariant
            i <= directional.len(),
            selection@.well_formed(),
            selection@.directional_count == min_count(i as nat, MAX_DIRECTIONAL_LIGHTS as nat),
            selection@.directional_slots == directional@.take(selection@.directional_count as int)
                + filled(
                (MAX_DIRECTIONAL_LIGHTS - selection@.directional_count) as nat,
                fill_directional,
            ),
            selection@.punctual_slots == filled(MAX_PUNCTUAL_LIGHTS as nat, fill_punctual),
            selection@.punctual_count == 0,
        decreases directional.len() - i,
    {
        let ghost before = selection@;
        push_directional_light(&mut selection, directional[i]);
        proof {
            if before.directional_count < MAX_DIRECTIONAL_LIGHTS {
                let n = before.directional_count as int;
                assert(directional@.take(n + 1) == directional@.take(n).push(directional@[n]));
                assert(selection@.directional_slots =~= directional@.take(n + 1) + filled(
                    (MAX_DIRECTIONAL_LIGHTS - (n + 1)) as nat,
                    fill_directional,
                ));
            }
        }
        i += 1;
    }
    let sorted = sort_scored_lights(punctual);
    proof {
        lemma_sort_by_score_descending(punctual@);
    }
    let mut j: usize = 0;
    while j < sorted.len()
        invariant
            j <= sorted.len(),
            sorted@ == sort_by_score(punctual@),
            sorted@.len() == punctual@.len(),
            selection@.well_formed(),
            selection@.directional_count == min_count(
                directional@.len(),
                MAX_DIRECTIONAL_LIGHTS as nat,
            ),
            selection@.directional_slots == directional@.take(selection@.directional_count as int)
                + filled(
                (MAX_DIRECTIONAL_LIGHTS - selection@.directional_count) as nat,
                fill_directional,
            ),
            selection@.punctual_count == min_count(j as nat, MAX_PUNCTUAL_LIGHTS as nat),
            selection@.punctual_slots == records(sorted@).take(selection@.punctual_count as int)
                + filled((MAX_PUNCTUAL_LIGHTS - selection@.punctual_count) as nat, fill_punctual),
        decreases sorted.len() - j,
    {
        let ghost before = selection@;
        let light = sorted[j];
        push_punctual_light(&mut selection, light.1);
        proof {
            if before.punctual_count < MAX_PUNCTUAL_LIGHTS {
                let n = before.punctual_count as int;
                assert(n == j);
                assert(records(sorted@)[n] == light.1);
                assert(records(sorted@).take(n + 1) == records(sorted@).take(n).push(light.1));
                assert(selection@.punctual_slots =~= records(sorted@).take(n + 1) + filled(
                    (MAX_PUNCTUAL_LIGHTS - (n + 1)) as nat,
                    fill_punctual,
                ));
            }
        }
        j += 1;
    }
    selection
}

/// The selection keeps the highest-scoring punctual lights: it takes the sorted
/// lights from the front, so no light left out has a higher key than a light
/// selected; sorting neither loses nor invents lights; when there are no more
/// lights than slots, every offered light is selected.
pub proof fn lemma_selection_keeps_highest_scores<D, P>(
    directional: Seq<D>,
    punctual: Seq<ScoredLight<P>>,
    fill_directional: D,
    fill_punctual: P,
)
    ensures
        ({
            let selection = spec_light_selection(
                directional,
                punctual,
                fill_directional,
                fill_punctual,
            );
            let sorted = sort_by_score(punctual);
            &&& selection.well_formed()
            &&& selection.selected_directional() == directional.take(
                selection.directional_count as int,
            )
            &&& selection.selected_punctual() == records(sorted).take(
                selection.punctual_count as int,
            )
            &&& forall|i: int, j: int|
                0 <= i < selection.punctual_count <= j < sorted.len() ==> sorted[i].0
                    >= sorted[j].0
            &&& sorted.to_multiset() == punctual.to_multiset()
            &&& punctual.len() <= MAX_PUNCTUAL_LIGHTS ==> selection.punctual_count
                == punctual.len()
            &&& directional.len() <= MAX_DIRECTIONAL_LIGHTS ==> selection.directional_count
                == directional.len()
        }),
{
    let selection = spec_light_selection(directional, punctual, fill_directional, fill_punctual);
    let sorted = sort_by_score(punctual);
    lemma_sort_by_score_descending(punctual);
    lemma_sort_by_score_permutes(punctual);
    assert(selection.selected_directional() =~= directional.take(
        selection.directional_count as int,
    ));
    assert(selection.selected_punctual() =~= records(sorted).take(
        selection.punctual_count as int,
    ));
}

} // verus!
