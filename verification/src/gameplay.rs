//! Gameplay: the playfield's note instances and how the gameplay view packs
//! them into one instance buffer, column by column and kind by kind.
use vstd::prelude::*;

verus! {

/// The number of columns of the playfield (4K).
pub const NUM_COLUMNS: usize = 4;

/// Type of visual element to render.
#[derive(Clone, Copy, Debug, PartialEq, Eq, Structural)]
pub enum NoteVisual {
    /// Regular tap note
    Tap,
    /// Mine (different texture)
    Mine,
    /// Hold note body (stretched)
    HoldBody,
    /// Hold note end cap
    HoldEnd,
    /// Burst note body (stretched)
    BurstBody,
    /// Burst note end cap
    BurstEnd,
}

/// A renderable note instance with its visual type; `I` is the GPU instance
/// (position and scale) that the renderer draws.
pub struct NoteInstance<I> {
    pub column: usize,
    pub visual: NoteVisual,
    pub instance: I,
}

/// What a note of the chart is, as far as its drawing depends on it.
#[derive(Clone, Copy, Debug, PartialEq, Eq, Structural)]
pub enum NoteKind {
    Tap,
    Mine,
    /// A hold note, and whether it is being held.
    Hold { is_held: bool },
    /// A burst note, and how many times it has been hit.
    Burst { current_hits: u32 },
}

/// Whether a long note's head is pinned to the hit line: a hold being held,
/// or a burst hit at least once, whose head has scrolled below the line.
pub open spec fn head_pinned_spec(kind: NoteKind, below_hit_line: bool) -> bool {
    match kind {
        NoteKind::Hold { is_held } => is_held && below_hit_line,
        NoteKind::Burst { current_hits } => current_hits > 0 && below_hit_line,
        _ => false,
    }
}

/// Whether a long note's head is pinned to the hit line.
pub fn head_pinned(kind: NoteKind, below_hit_line: bool) -> (r: bool)
    ensures
        r == head_pinned_spec(kind, below_hit_line),
{
    match kind {
        NoteKind::Hold { is_held } => is_held && below_hit_line,
        NoteKind::Burst { current_hits } => current_hits > 0 && below_hit_line,
        _ => false,
    }
}

/// A note's head is pinned to the hit line only once it has scrolled below
/// the line: a hold while it is held, a burst once it has been hit at least
/// once, a tap or a mine never; and a pinned head is not drawn.
pub proof fn lemma_head_pinned_when(kind: NoteKind, below_hit_line: bool, body_visible: bool)
    ensures
        head_pinned_spec(kind, below_hit_line) ==> below_hit_line,
        kind matches NoteKind::Hold { is_held } ==> (head_pinned_spec(kind, below_hit_line) <==> (is_held
            && below_hit_line)),
        kind matches NoteKind::Burst { current_hits } ==> (head_pinned_spec(kind, below_hit_line) <==> (
        current_hits >= 1 && below_hit_line)),
        (kind is Tap || kind is Mine) ==> !head_pinned_spec(kind, below_hit_line),
        (kind is Hold || kind is Burst) ==> (note_visuals_spec(
            kind,
            head_pinned_spec(kind, below_hit_line),
            body_visible,
        ).contains(NoteVisual::Tap) <==> !head_pinned_spec(kind, below_hit_line)),
{
    lemma_note_visuals_shape(kind, head_pinned_spec(kind, below_hit_line), body_visible);
}

/// The pieces drawn for a note, in drawing order: a tap or a mine alone; for
/// a long note its body (when it has a visible height), its head (unless
/// pinned to the hit line) and its end cap.
pub open spec fn note_visuals_spec(kind: NoteKind, pinned: bool, body_visible: bool) -> Seq<NoteVisual> {
    match kind {
        NoteKind::Tap => seq![NoteVisual::Tap],
        NoteKind::Mine => seq![NoteVisual::Mine],
        NoteKind::Hold { .. } => (if body_visible {
            seq![NoteVisual::HoldBody]
        } else {
            Seq::empty()
        }) + (if pinned {
            Seq::empty()
        } else {
            seq![NoteVisual::Tap]
        }) + seq![NoteVisual::HoldEnd],
        NoteKind::Burst { .. } => (if body_visible {
            seq![NoteVisual::BurstBody]
        } else {
            Seq::empty()
        }) + (if pinned {
            Seq::empty()
        } else {
            seq![NoteVisual::Tap]
        }) + seq![NoteVisual::BurstEnd],
    }
}

/// The pieces drawn for a note; `pinned` tells whether its head is pinned
/// to the hit line and `body_visible` whether its body has a visible height.
pub fn note_visuals(kind: NoteKind, pinned: bool, body_visible: bool) -> (r: Vec<NoteVisual>)
    ensures
        r@ == note_visuals_spec(kind, pinned, body_visible),
{
    let mut r: Vec<NoteVisual> = Vec::new();
    match kind {
        NoteKind::Tap => r.push(NoteVisual::Tap),
        NoteKind::Mine => r.push(NoteVisual::Mine),
        NoteKind::Hold { .. } => {
            if body_visible {
                r.push(NoteVisual::HoldBody);
            }
            if !pinned {
                r.push(NoteVisual::Tap);
            }
            r.push(NoteVisual::HoldEnd);
        },
        NoteKind::Burst { .. } => {
            if body_visible {
                r.push(NoteVisual::BurstBody);
            }
            if !pinned {
                r.push(NoteVisual::Tap);
            }
            r.push(NoteVisual::BurstEnd);
        },
    }
    assert(r@ =~= note_visuals_spec(kind, pinned, body_visible));
    r
}

/// A long note always ends in exactly one end cap and shows its head unless
/// it is pinned; a tap or a mine is one piece of its own kind.
pub proof fn lemma_note_visuals_shape(kind: NoteKind, pinned: bool, body_visible: bool)
    ensures
        ({
            let v = note_visuals_spec(kind, pinned, body_visible);
            match kind {
                NoteKind::Hold { .. } => v.last() == NoteVisual::HoldEnd && v.len() == 1 + (if body_visible {
                    1int
                } else {
                    0int
                }) + (if pinned {
                    0int
                } else {
                    1int
                }) && (v.contains(NoteVisual::Tap) <==> !pinned),
                NoteKind::Burst { .. } => v.last() == NoteVisual::BurstEnd && v.len() == 1 + (
                if body_visible {
                    1int
                } else {
                    0int
                }) + (if pinned {
                    0int
                } else {
                    1int
                }) && (v.contains(NoteVisual::Tap) <==> !pinned),
                NoteKind::Tap => v == seq![NoteVisual::Tap],
                NoteKind::Mine => v == seq![NoteVisual::Mine],
            }
        }),
{
    let v = note_visuals_spec(kind, pinned, body_visible);
    match kind {
        NoteKind::Hold { .. } => {
            if !pinned {
                assert(v[v.len() - 2] == NoteVisual::Tap);
            } else {
                assert forall|i: int| 0 <= i < v.len() implies v[i] != NoteVisual::Tap by {}
            }
        },
        NoteKind::Burst { .. } => {
            if !pinned {
                assert(v[v.len() - 2] == NoteVisual::Tap);
            } else {
                assert forall|i: int| 0 <= i < v.len() implies v[i] != NoteVisual::Tap by {}
            }
        },
        _ => {},
    }
}

/// The playfield: its configuration `C` (column widths, spacing, offsets),
/// from which the renderer places notes and receptors.
pub struct PlayfieldDisplay<C> {
    pub config: C,
}

impl<C> PlayfieldDisplay<C> {
    pub fn new(config: C) -> (r: Self)
        ensures
            r.config == config,
    {
        PlayfieldDisplay { config }
    }
}

/// The tap instances of column `col`, in the order they come.
pub open spec fn tap_group<I>(s: Seq<NoteInstance<I>>, col: int) -> Seq<I>
    decreases s.len(),
{
    if s.len() == 0 {
        Seq::empty()
    } else {
        let rest = tap_group(s.drop_last(), col);
        if s.last().visual == NoteVisual::Tap && s.last().column == col {
            rest.push(s.last().instance)
        } else {
            rest
        }
    }
}

/// The instances of one non-tap visual, in the order they come.
pub open spec fn visual_group<I>(s: Seq<NoteInstance<I>>, v: NoteVisual) -> Seq<I>
    decreases s.len(),
{
    if s.len() == 0 {
        Seq::empty()
    } else {
        let rest = visual_group(s.drop_last(), v);
        if s.last().visual == v {
            rest.push(s.last().instance)
        } else {
            rest
        }
    }
}

/// The tap instances of columns `0 .. k`, column after column.
pub open spec fn columns_concat<I>(s: Seq<NoteInstance<I>>, k: nat) -> Seq<I>
    decreases k,
{
    if k == 0 {
        Seq::empty()
    } else {
        columns_concat(s, (k - 1) as nat) + tap_group(s, k - 1)
    }
}

/// The non-tap groups in the order the buffer holds them.
pub open spec fn special_visuals() -> Seq<NoteVisual> {
    seq![
        NoteVisual::Mine,
        NoteVisual::HoldBody,
        NoteVisual::HoldEnd,
        NoteVisual::BurstBody,
        NoteVisual::BurstEnd,
    ]
}

/// The special groups `special_visuals()[0 .. k]`, one after another.
pub open spec fn specials_concat<I>(s: Seq<NoteInstance<I>>, k: nat) -> Seq<I>
    decreases k,
{
    if k == 0 {
        Seq::empty()
    } else {
        specials_concat(s, (k - 1) as nat) + visual_group(s, special_visuals()[k - 1])
    }
}

/// The instance buffer: the taps of each column in column order, then the
/// mines, hold bodies, hold ends, burst bodies and burst ends. Taps of a
/// column the playfield does not have are left out.
pub open spec fn packed_instances<I>(s: Seq<NoteInstance<I>>) -> Seq<I> {
    columns_concat(s, NUM_COLUMNS as nat) + specials_concat(s, 5)
}

/// How many instances of `s` the buffer leaves out: taps of columns beyond
/// the playfield's.
pub open spec fn dropped_count<I>(s: Seq<NoteInstance<I>>) -> nat
    decreases s.len(),
{
    if s.len() == 0 {
        0
    } else {
        dropped_count(s.drop_last()) + if s.last().visual == NoteVisual::Tap && s.last().column
            >= NUM_COLUMNS {
            1nat
        } else {
            0nat
        }
    }
}

/// Where one group lies in the instance buffer.
#[derive(Clone, Copy, Debug, PartialEq, Eq, Structural)]
pub struct InstanceRange {
    pub offset: u64,
    pub count: u64,
}

/// Where each group lies in the instance buffer: one range per column, then
/// one per special visual.
pub struct InstanceLayout {
    pub columns: Vec<InstanceRange>,
    pub mines: InstanceRange,
    pub hold_bodies: InstanceRange,
    pub hold_ends: InstanceRange,
    pub burst_bodies: InstanceRange,
    pub burst_ends: InstanceRange,
}

impl InstanceLayout {
    /// The range of the `k`-th special group.
    pub open spec fn special_range(&self, k: int) -> InstanceRange {
        if k == 0 {
            self.mines
        } else if k == 1 {
            self.hold_bodies
        } else if k == 2 {
            self.hold_ends
        } else if k == 3 {
            self.burst_bodies
        } else {
            self.burst_ends
        }
    }
}

/// The layout describes `s`: each column's range starts where the taps of
/// the columns before it end and holds as many instances as that column has;
/// the special ranges follow the same way.
pub open spec fn layout_matches<I>(layout: InstanceLayout, s: Seq<NoteInstance<I>>) -> bool {
    &&& layout.columns@.len() == NUM_COLUMNS
    &&& forall|c: int|
        0 <= c < NUM_COLUMNS ==> #[trigger] layout.columns@[c] == (InstanceRange {
            offset: columns_concat(s, c as nat).len() as u64,
            count: tap_group(s, c).len() as u64,
        })
    &&& forall|k: int|
        0 <= k < 5 ==> #[trigger] layout.special_range(k) == (InstanceRange {
            offset: (columns_concat(s, NUM_COLUMNS as nat).len() + specials_concat(
                s,
                k as nat,
            ).len()) as u64,
            count: visual_group(s, special_visuals()[k]).len() as u64,
        })
}

proof fn lemma_group_lengths_step<I>(s: Seq<NoteInstance<I>>, k: nat)
    requires
        s.len() > 0,
        k <= NUM_COLUMNS,
    ensures
        columns_concat(s, k).len() == columns_concat(s.drop_last(), k).len() + if s.last().visual
            == NoteVisual::Tap && s.last().column < k {
            1int
        } else {
            0int
        },
        specials_concat(s, 5).len() == specials_concat(s.drop_last(), 5).len() + if s.last().visual
            != NoteVisual::Tap {
            1int
        } else {
            0int
        },
    decreases k,
{
    if k > 0 {
        lemma_group_lengths_step(s, (k - 1) as nat);
    }
    let t = s.drop_last();
    reveal_with_fuel(specials_concat, 6);
}

/// The buffer is as long as `s` less the taps of columns the playfield
/// lacks.
pub proof fn lemma_packed_length<I>(s: Seq<NoteInstance<I>>)
    ensures
        packed_instances(s).len() + dropped_count(s) == s.len(),
    decreases s.len(),
{
    if s.len() == 0 {
        reveal_with_fuel(columns_concat, 5);
        reveal_with_fuel(specials_concat, 6);
    } else {
        lemma_packed_length(s.drop_last());
        lemma_group_lengths_step(s, NUM_COLUMNS as nat);
    }
}

/// The instances of `s` that the buffer keeps, in the order they come: all
/// but the taps of columns beyond the playfield's.
pub open spec fn kept_instances<I>(s: Seq<NoteInstance<I>>) -> Seq<I>
    decreases s.len(),
{
    if s.len() == 0 {
        Seq::empty()
    } else {
        let rest = kept_instances(s.drop_last());
        if s.last().visual == NoteVisual::Tap && s.last().column >= NUM_COLUMNS {
            rest
        } else {
            rest.push(s.last().instance)
        }
    }
}

/// The place of a non-tap visual among the special groups (5 for a tap).
spec fn special_index(v: NoteVisual) -> int {
    match v {
        NoteVisual::Mine => 0,
        NoteVisual::HoldBody => 1,
        NoteVisual::HoldEnd => 2,
        NoteVisual::BurstBody => 3,
        NoteVisual::BurstEnd => 4,
        NoteVisual::Tap => 5,
    }
}

/// `x` once where `b` holds, nothing otherwise.
spec fn one_if<I>(b: bool, x: I) -> vstd::multiset::Multiset<I> {
    if b {
        vstd::multiset::Multiset::singleton(x)
    } else {
        vstd::multiset::Multiset::empty()
    }
}

proof fn lemma_columns_multiset_step<I>(s: Seq<NoteInstance<I>>, k: nat)
    requires
        s.len() > 0,
    ensures
        columns_concat(s, k).to_multiset() =~= columns_concat(s.drop_last(), k).to_multiset().add(
            one_if(s.last().visual == NoteVisual::Tap && s.last().column < k, s.last().instance),
        ),
    decreases k,
{
    broadcast use vstd::seq_lib::group_to_multiset_ensures;
    broadcast use vstd::multiset::group_multiset_axioms;

    let t = s.drop_last();
    let x = s.last();
    if k == 0 {
        assert(columns_concat(s, 0) =~= Seq::<I>::empty());
        assert(columns_concat(t, 0) =~= Seq::<I>::empty());
    } else {
        lemma_columns_multiset_step(s, (k - 1) as nat);
        vstd::seq_lib::lemma_multiset_commutative(columns_concat(s, (k - 1) as nat), tap_group(s, k - 1));
        vstd::seq_lib::lemma_multiset_commutative(columns_concat(t, (k - 1) as nat), tap_group(t, k - 1));
        if x.visual == NoteVisual::Tap && x.column == k - 1 {
            assert(tap_group(s, k - 1) == tap_group(t, k - 1).push(x.instance));
        } else {
            assert(tap_group(s, k - 1) == tap_group(t, k - 1));
        }
    }
}

proof fn lemma_specials_multiset_step<I>(s: Seq<NoteInstance<I>>, k: nat)
    requires
        s.len() > 0,
        k <= 5,
    ensures
        specials_concat(s, k).to_multiset() =~= specials_concat(s.drop_last(), k).to_multiset().add(
            one_if(special_index(s.last().visual) < k, s.last().instance),
        ),
    decreases k,
{
    broadcast use vstd::seq_lib::group_to_multiset_ensures;
    broadcast use vstd::multiset::group_multiset_axioms;

    let t = s.drop_last();
    let x = s.last();
    if k == 0 {
        assert(specials_concat(s, 0) =~= Seq::<I>::empty());
        assert(specials_concat(t, 0) =~= Seq::<I>::empty());
    } else {
        lemma_specials_multiset_step(s, (k - 1) as nat);
        let v = special_visuals()[k - 1];
        vstd::seq_lib::lemma_multiset_commutative(specials_concat(s, (k - 1) as nat), visual_group(s, v));
        vstd::seq_lib::lemma_multiset_commutative(specials_concat(t, (k - 1) as nat), visual_group(t, v));
        if x.visual == v {
            assert(visual_group(s, v) == visual_group(t, v).push(x.instance));
            assert(special_index(x.visual) == k - 1);
        } else {
            assert(visual_group(s, v) == visual_group(t, v));
            assert(special_index(x.visual) != k - 1);
        }
    }
}

/// Nothing is lost or repeated in the buffer: it holds exactly the kept
/// instances of `s`, each as many times as `s` has it, and what is not kept
/// is the taps of columns the playfield lacks.
pub proof fn lemma_packed_keeps_instances<I>(s: Seq<NoteInstance<I>>)
    ensures
        packed_instances(s).to_multiset() =~= kept_instances(s).to_multiset(),
        kept_instances(s).len() + dropped_count(s) == s.len(),
    decreases s.len(),
{
    broadcast use vstd::seq_lib::group_to_multiset_ensures;
    broadcast use vstd::multiset::group_multiset_axioms;

    if s.len() == 0 {
        assert(columns_concat(s, NUM_COLUMNS as nat) =~= Seq::<I>::empty()) by {
            reveal_with_fuel(columns_concat, 5);
        }
        assert(specials_concat(s, 5) =~= Seq::<I>::empty()) by {
            reveal_with_fuel(specials_concat, 6);
        }
        assert(packed_instances(s) =~= Seq::<I>::empty());
    } else {
        let t = s.drop_last();
        let x = s.last();
        lemma_packed_keeps_instances(t);
        lemma_columns_multiset_step(s, NUM_COLUMNS as nat);
        lemma_specials_multiset_step(s, 5);
        vstd::seq_lib::lemma_multiset_commutative(
            columns_concat(s, NUM_COLUMNS as nat),
            specials_concat(s, 5),
        );
        vstd::seq_lib::lemma_multiset_commutative(
            columns_concat(t, NUM_COLUMNS as nat),
            specials_concat(t, 5),
        );
    }
}

fn append_taps<I: Copy>(out: &mut Vec<I>, s: &Vec<NoteInstance<I>>, col: usize) -> (count: u64)
    ensures
        final(out)@ == old(out)@ + tap_group(s@, col as int),
        count == tap_group(s@, col as int).len(),
{
    let ghost start = out@;
    let mut count: u64 = 0;
    let mut i: usize = 0;
    assert(s@.take(0) =~= Seq::<NoteInstance<I>>::empty());
    while i < s.len()
        invariant
            i <= s@.len(),
            out@ == start + tap_group(s@.take(i as int), col as int),
            count == tap_group(s@.take(i as int), col as int).len(),
            count <= i,
        decreases s.len() - i,
    {
        let ghost t = s@.take((i + 1) as int);
        assert(t.drop_last() =~= s@.take(i as int));
        if matches!(s[i].visual, NoteVisual::Tap) && s[i].column == col {
            out.push(s[i].instance);
            count = count + 1;
        }
        i = i + 1;
        assert(out@ =~= start + tap_group(t, col as int));
    }
    assert(s@.take(s@.len() as int) =~= s@);
    count
}

fn append_visual<I: Copy>(out: &mut Vec<I>, s: &Vec<NoteInstance<I>>, v: NoteVisual) -> (count:
    u64)
    ensures
        final(out)@ == old(out)@ + visual_group(s@, v),
        count == visual_group(s@, v).len(),
{
    let ghost start = out@;
    let mut count: u64 = 0;
    let mut i: usize = 0;
    assert(s@.take(0) =~= Seq::<NoteInstance<I>>::empty());
    while i < s.len()
        invariant
            i <= s@.len(),
            out@ == start + visual_group(s@.take(i as int), v),
            count == visual_group(s@.take(i as int), v).len(),
            count <= i,
        decreases s.len() - i,
    {
        let ghost t = s@.take((i + 1) as int);
        assert(t.drop_last() =~= s@.take(i as int));
        if s[i].visual == v {
            out.push(s[i].instance);
            count = count + 1;
        }
        i = i + 1;
        assert(out@ =~= start + visual_group(t, v));
    }
    assert(s@.take(s@.len() as int) =~= s@);
    count
}

/// Packs the note instances into `out` (emptied first) as the gameplay view
/// uploads them, and gives back where each group lies.
pub fn pack_instances<I: Copy>(out: &mut Vec<I>, s: &Vec<NoteInstance<I>>) -> (layout:
    InstanceLayout)
    ensures
        final(out)@ == packed_instances(s@),
        layout_matches(layout, s@),
{
    proof {
        lemma_packed_length(s@);
    }
    let n_items = s.len();
    out.clear();
    let mut columns: Vec<InstanceRange> = Vec::new();
    let mut total: u64 = 0;
    let mut c: usize = 0;
    assert(out@ =~= columns_concat(s@, 0));
    while c < NUM_COLUMNS
        invariant
            c <= NUM_COLUMNS,
            out@ == columns_concat(s@, c as nat),
            total == out@.len(),
            packed_instances(s@).len() <= s@.len(),
            s@.len() == n_items,
            columns@.len() == c,
            forall|k: int|
                0 <= k < c ==> #[trigger] columns@[k] == (InstanceRange {
                    offset: columns_concat(s@, k as nat).len() as u64,
                    count: tap_group(s@, k).len() as u64,
                }),
        decreases NUM_COLUMNS - c,
    {
        proof {
            lemma_columns_prefix_len(s@, (c + 1) as nat, NUM_COLUMNS as nat);
        }
        let offset = total;
        let count = append_taps(out, s, c);
        assert(out@ =~= columns_concat(s@, (c + 1) as nat));
        columns.push(InstanceRange { offset, count });
        total = total + count;
        c = c + 1;
    }
    let ghost cols = out@;
    assert(specials_concat(s@, 0) =~= Seq::<I>::empty());
    let mines_offset = total;
    proof {
        lemma_specials_prefix_len(s@, 1);
    }
    let mines_count = append_visual(out, s, NoteVisual::Mine);
    assert(out@ =~= cols + specials_concat(s@, 1));
    total = total + mines_count;
    let hold_bodies_offset = total;
    proof {
        lemma_specials_prefix_len(s@, 2);
    }
    let hold_bodies_count = append_visual(out, s, NoteVisual::HoldBody);
    assert(out@ =~= cols + specials_concat(s@, 2));
    total = total + hold_bodies_count;
    let hold_ends_offset = total;
    proof {
        lemma_specials_prefix_len(s@, 3);
    }
    let hold_ends_count = append_visual(out, s, NoteVisual::HoldEnd);
    assert(out@ =~= cols + specials_concat(s@, 3));
    total = total + hold_ends_count;
    let burst_bodies_offset = total;
    proof {
        lemma_specials_prefix_len(s@, 4);
    }
    let burst_bodies_count = append_visual(out, s, NoteVisual::BurstBody);
    assert(out@ =~= cols + specials_concat(s@, 4));
    total = total + burst_bodies_count;
    let burst_ends_offset = total;
    proof {
        lemma_specials_prefix_len(s@, 5);
    }
    let burst_ends_count = append_visual(out, s, NoteVisual::BurstEnd);
    assert(out@ =~= cols + specials_concat(s@, 5));
    let layout = InstanceLayout {
        columns,
        mines: InstanceRange { offset: mines_offset, count: mines_count },
        hold_bodies: InstanceRange { offset: hold_bodies_offset, count: hold_bodies_count },
        hold_ends: InstanceRange { offset: hold_ends_offset, count: hold_ends_count },
        burst_bodies: InstanceRange { offset: burst_bodies_offset, count: burst_bodies_count },
        burst_ends: InstanceRange { offset: burst_ends_offset, count: burst_ends_count },
    };
    layout
}

proof fn lemma_columns_prefix_len<I>(s: Seq<NoteInstance<I>>, k: nat, n: nat)
    requires
        k <= n,
    ensures
        columns_concat(s, k).len() <= columns_concat(s, n).len(),
    decreases n,
{
    if k < n {
        lemma_columns_prefix_len(s, k, (n - 1) as nat);
    }
}

proof fn lemma_specials_prefix_len<I>(s: Seq<NoteInstance<I>>, k: nat)
    requires
        k <= 5,
    ensures
        columns_concat(s, NUM_COLUMNS as nat).len() + specials_concat(s, k).len() <= packed_instances(
            s,
        ).len(),
        specials_concat(s, k).len() <= specials_concat(s, 5).len(),
    decreases 5 - k,
{
    if k < 5 {
        lemma_specials_prefix_len(s, k + 1);
    }
}


/// The gameplay view: the playfield it draws and the instance buffer it
/// fills each frame.
pub struct GameplayView<I, C> {
    playfield_component: PlayfieldDisplay<C>,
    instance_cache: Vec<I>,
}

impl<I: Copy, C> GameplayView<I, C> {
    /// The playfield that the view draws.
    pub closed spec fn playfield(&self) -> PlayfieldDisplay<C> {
        self.playfield_component
    }

    /// The instances packed for the current frame.
    pub closed spec fn instances(&self) -> Seq<I> {
        self.instance_cache@
    }

    /// A view of the playfield with an empty instance buffer.
    pub fn new(playfield_component: PlayfieldDisplay<C>) -> (r: Self)
        ensures
            r.playfield() == playfield_component,
            r.instances() == Seq::<I>::empty(),
    {
        GameplayView { playfield_component, instance_cache: Vec::new() }
    }

    pub fn playfield_component(&self) -> (r: &PlayfieldDisplay<C>)
        ensures
            *r == self.playfield(),
    {
        &self.playfield_component
    }

    pub fn playfield_component_mut(&mut self) -> (r: &mut PlayfieldDisplay<C>)
        ensures
            *r == old(self).playfield(),
            final(self).playfield() == *final(r),
            final(self).instances() == old(self).instances(),
    {
        &mut self.playfield_component
    }

    /// Packs this frame's note instances into the view's buffer and gives
    /// back where each group lies in it.
    pub fn prepare_instances(&mut self, typed: &Vec<NoteInstance<I>>) -> (layout: InstanceLayout)
        ensures
            final(self).instances() == packed_instances(typed@),
            final(self).playfield() == old(self).playfield(),
            layout_matches(layout, typed@),
    {
        pack_instances(&mut self.instance_cache, typed)
    }

    /// The instances packed for the current frame.
    pub fn instance_buffer(&self) -> (r: &Vec<I>)
        ensures
            r@ == self.instances(),
    {
        &self.instance_cache
    }
}

} // verus!
