use vstd::prelude::*;
use crate::profile::{Profile, ProfileView, UserResult, profile_of, opt_view, decode_profile};

verus! {

/// A pagination marker: a direction tag and an opaque value.
#[derive(Clone, Debug)]
pub struct CursorContent {
    pub cursor_type: Option<String>,
    pub value: String,
}

/// The data side of an entry: possibly a user result.
#[derive(Clone, Debug)]
pub struct ItemContent {
    pub user_results: Option<UserResult>,
}

/// What an entry carries: an item, a cursor marker, or (unrecognized) neither.
#[derive(Clone, Debug)]
pub struct EntryContent {
    pub item_content: Option<ItemContent>,
    pub cursor: Option<CursorContent>,
}

#[derive(Clone, Debug)]
pub struct Entry {
    pub content: EntryContent,
}

/// One instruction of a timeline's instruction stream.
#[derive(Clone, Debug)]
pub enum TimelineInstruction {
    AddEntries { entries: Vec<Entry> },
    ReplaceEntry { entry: Entry },
}

/// The timeline found under a response's root data.
#[derive(Clone, Debug)]
pub struct TimelineData {
    pub instructions: Vec<TimelineInstruction>,
}

/// A decoded relationship response; `data` is absent for a failed or empty fetch.
#[derive(Clone, Debug)]
pub struct RelationshipTimeline {
    pub data: Option<TimelineData>,
}

/// One page of profiles with its forward (`next`) and backward (`previous`) cursors.
#[derive(Clone, Debug)]
pub struct QueryProfilesResponse {
    pub profiles: Vec<Profile>,
    pub next: Option<String>,
    pub previous: Option<String>,
}

pub struct PageView {
    pub profiles: Seq<ProfileView>,
    pub next: Option<Seq<char>>,
    pub previous: Option<Seq<char>>,
}

impl View for QueryProfilesResponse {
    type V = PageView;

    open spec fn view(&self) -> PageView {
        PageView {
            profiles: self.profiles@.map_values(|p: Profile| p@),
            next: opt_view(self.next),
            previous: opt_view(self.previous),
        }
    }
}

/// Tag of the marker that holds the forward cursor.
pub const BOTTOM_TAG: &'static str = "Bottom";

/// Tag of the marker that holds the backward cursor.
pub const TOP_TAG: &'static str = "Top";

/// The profiles that one entry of an `AddEntries` instruction contributes:
/// one for an item with a user result that has a legacy bag, none otherwise.
pub open spec fn entry_profiles(e: Entry) -> Seq<ProfileView> {
    match e.content.item_content {
        Some(item) => match item.user_results {
            Some(user) => match user.legacy {
                Some(legacy) => seq![profile_of(user, legacy)],
                None => Seq::empty(),
            },
            None => Seq::empty(),
        },
        None => Seq::empty(),
    }
}

/// The cursor markers of one entry of an `AddEntries` instruction: its marker,
/// unless the entry carries an item, which takes precedence.
pub open spec fn entry_markers(e: Entry) -> Seq<CursorContent> {
    match e.content.item_content {
        Some(_) => Seq::empty(),
        None => match e.content.cursor {
            Some(c) => seq![c],
            None => Seq::empty(),
        },
    }
}

pub open spec fn entries_profiles(es: Seq<Entry>) -> Seq<ProfileView>
    decreases es.len(),
{
    if es.len() == 0 {
        Seq::empty()
    } else {
        entries_profiles(es.drop_last()) + entry_profiles(es.last())
    }
}

pub open spec fn entries_markers(es: Seq<Entry>) -> Seq<CursorContent>
    decreases es.len(),
{
    if es.len() == 0 {
        Seq::empty()
    } else {
        entries_markers(es.drop_last()) + entry_markers(es.last())
    }
}

/// Profiles of one instruction: those of its entries for `AddEntries`, none for `ReplaceEntry`.
pub open spec fn instruction_profiles(i: TimelineInstruction) -> Seq<ProfileView> {
    match i {
        TimelineInstruction::AddEntries { entries } => entries_profiles(entries@),
        TimelineInstruction::ReplaceEntry { .. } => Seq::empty(),
    }
}

/// Markers of one instruction; a replaced entry is read for its marker alone.
pub open spec fn instruction_markers(i: TimelineInstruction) -> Seq<CursorContent> {
    match i {
        TimelineInstruction::AddEntries { entries } => entries_markers(entries@),
        TimelineInstruction::ReplaceEntry { entry } => match entry.content.cursor {
            Some(c) => seq![c],
            None => Seq::empty(),
        },
    }
}

pub open spec fn stream_profiles(ins: Seq<TimelineInstruction>) -> Seq<ProfileView>
    decreases ins.len(),
{
    if ins.len() == 0 {
        Seq::empty()
    } else {
        stream_profiles(ins.drop_last()) + instruction_profiles(ins.last())
    }
}

pub open spec fn stream_markers(ins: Seq<TimelineInstruction>) -> Seq<CursorContent>
    decreases ins.len(),
{
    if ins.len() == 0 {
        Seq::empty()
    } else {
        stream_markers(ins.drop_last()) + instruction_markers(ins.last())
    }
}

pub open spec fn has_tag(c: CursorContent, tag: Seq<char>) -> bool {
    match c.cursor_type {
        Some(t) => t@ == tag,
        None => false,
    }
}

/// The value of the last marker tagged `tag`, if any.
pub open spec fn last_cursor(ms: Seq<CursorContent>, tag: Seq<char>) -> Option<Seq<char>>
    decreases ms.len(),
{
    if ms.len() == 0 {
        None
    } else if has_tag(ms.last(), tag) {
        Some(ms.last().value@)
    } else {
        last_cursor(ms.drop_last(), tag)
    }
}

/// The page that a response decodes to.
pub open spec fn page_of(t: RelationshipTimeline) -> PageView {
    match t.data {
        Some(d) => PageView {
            profiles: stream_profiles(d.instructions@),
            next: last_cursor(stream_markers(d.instructions@), BOTTOM_TAG@),
            previous: last_cursor(stream_markers(d.instructions@), TOP_TAG@),
        },
        None => PageView { profiles: Seq::empty(), next: None, previous: None },
    }
}

/// Sets the forward or backward cursor from a marker; other tags leave both as they were.
fn apply_marker(
    c: &CursorContent,
    next: &mut Option<String>,
    previous: &mut Option<String>,
)
    ensures
        opt_view(*final(next)) == if has_tag(*c, BOTTOM_TAG@) {
            Some(c.value@)
        } else {
            opt_view(*old(next))
        },
        opt_view(*final(previous)) == if has_tag(*c, TOP_TAG@) {
            Some(c.value@)
        } else {
            opt_view(*old(previous))
        },
{
    proof {
        reveal_strlit("Bottom");
        reveal_strlit("Top");
        assert(BOTTOM_TAG@[0] != TOP_TAG@[0]);
    }
    match &c.cursor_type {
        Some(t) => {
            let bottom = BOTTOM_TAG.to_owned();
            let top = TOP_TAG.to_owned();
            if *t == bottom {
                *next = Some(c.value.clone());
            } else if *t == top {
                *previous = Some(c.value.clone());
            }
        },
        None => {},
    }
}

proof fn lemma_last_cursor_push(ms: Seq<CursorContent>, c: CursorContent, tag: Seq<char>)
    ensures
        last_cursor(ms.push(c), tag) == if has_tag(c, tag) {
            Some(c.value@)
        } else {
            last_cursor(ms, tag)
        },
{
    assert(ms.push(c).drop_last() =~= ms);
}

/// Decodes one response into a page: the profiles of the item entries in stream
/// order, and the last forward and backward cursors met.
pub fn parse_relationship_timeline(timeline: &RelationshipTimeline) -> (r: QueryProfilesResponse)
    ensures
        r@ == page_of(*timeline),
        timeline.data is None ==> r.profiles@.len() == 0 && r.next is None && r.previous is None,
{
    let mut profiles: Vec<Profile> = Vec::new();
    let mut next: Option<String> = None;
    let mut previous: Option<String> = None;
    match &timeline.data {
        Some(data) => {
            let instructions = &data.instructions;
            let ghost ins = instructions@;
            let mut i: usize = 0;
            while i < instructions.len()
                invariant
                    i <= ins.len(),
                    ins == instructions@,
                    profiles@.map_values(|p: Profile| p@) =~= stream_profiles(ins.take(i as int)),
                    opt_view(next) == last_cursor(stream_markers(ins.take(i as int)), BOTTOM_TAG@),
                    opt_view(previous) == last_cursor(stream_markers(ins.take(i as int)), TOP_TAG@),
                decreases ins.len() - i,
            {
                let ghost before = ins.take(i as int);
                assert(ins.take(i as int + 1).drop_last() =~= before);
                match &instructions[i] {
                    TimelineInstruction::AddEntries { entries } => {
                        let ghost es = entries@;
                        let ghost base_p = profiles@.map_values(|p: Profile| p@);
                        let ghost base_m = stream_markers(before);
                        let mut j: usize = 0;
                        while j < entries.len()
                            invariant
                                j <= es.len(),
                                es == entries@,
                                base_p == stream_profiles(before),
                                base_m == stream_markers(before),
                                profiles@.map_values(|p: Profile| p@) =~= base_p + entries_profiles(es.take(j as int)),
                                opt_view(next) == last_cursor(base_m + entries_markers(es.take(j as int)), BOTTOM_TAG@),
                                opt_view(previous) == last_cursor(base_m + entries_markers(es.take(j as int)), TOP_TAG@),
                            decreases es.len() - j,
                        {
                            let ghost pre = es.take(j as int);
                            assert(es.take(j as int + 1).drop_last() =~= pre);
                            assert(es.take(j as int + 1).last() == es[j as int]);
                            let entry = &entries[j];
                            match &entry.content.item_content {
                                Some(item) => {
                                    match &item.user_results {
                                        Some(user) => match &user.legacy {
                                            Some(legacy) => {
                                                let ghost old_p = profiles@;
                                                let p = decode_profile(user, legacy);
                                                profiles.push(p);
                                                assert(profiles@.map_values(|p: Profile| p@) =~=
                                                    old_p.map_values(|p: Profile| p@).push(p@));
                                            },
                                            None => {},
                                        },
                                        None => {},
                                    }
                                    assert(entries_markers(es.take(j as int + 1)) =~= entries_markers(pre));
                                },
                                None => {
                                    match &entry.content.cursor {
                                        Some(c) => {
                                            apply_marker(c, &mut next, &mut previous);
                                            assert(base_m + entries_markers(es.take(j as int + 1)) =~=
                                                (base_m + entries_markers(pre)).push(*c));
                                            proof {
                                                lemma_last_cursor_push(base_m + entries_markers(pre), *c, BOTTOM_TAG@);
                                                lemma_last_cursor_push(base_m + entries_markers(pre), *c, TOP_TAG@);
                                            }
                                        },
                                        None => {
                                            assert(entries_markers(es.take(j as int + 1)) =~= entries_markers(pre));
                                        },
                                    }
                                },
                            }
                            j = j + 1;
                        }
                        assert(es.take(es.len() as int) =~= es);
                        assert(instruction_profiles(ins[i as int]) == entries_profiles(es));
                    },
                    TimelineInstruction::ReplaceEntry { entry } => {
                        let ghost m = stream_markers(before);
                        match &entry.content.cursor {
                            Some(c) => {
                                apply_marker(c, &mut next, &mut previous);
                                assert(m + seq![*c] =~= m.push(*c));
                                proof {
                                    lemma_last_cursor_push(m, *c, BOTTOM_TAG@);
                                    lemma_last_cursor_push(m, *c, TOP_TAG@);
                                }
                            },
                            None => {
                                assert(m + Seq::<CursorContent>::empty() =~= m);
                            },
                        }
                        assert(profiles@.map_values(|p: Profile| p@) =~=
                            stream_profiles(before) + Seq::<ProfileView>::empty());
                    },
                }
                i = i + 1;
            }
            assert(ins.take(ins.len() as int) =~= ins);
        },
        None => {},
    }
    assert(profiles@.map_values(|p: Profile| p@) =~= page_of(*timeline).profiles);
    QueryProfilesResponse { profiles, next, previous }
}

proof fn lemma_entries_concat(a: Seq<Entry>, b: Seq<Entry>)
    ensures
        entries_profiles(a + b) == entries_profiles(a) + entries_profiles(b),
        entries_markers(a + b) == entries_markers(a) + entries_markers(b),
    decreases b.len(),
{
    if b.len() == 0 {
        assert(a + b =~= a);
        assert(entries_profiles(a) + entries_profiles(b) =~= entries_profiles(a));
        assert(entries_markers(a) + entries_markers(b) =~= entries_markers(a));
    } else {
        assert((a + b).drop_last() =~= a + b.drop_last());
        assert((a + b).last() == b.last());
        lemma_entries_concat(a, b.drop_last());
        assert(entries_profiles(a) + entries_profiles(b) =~=
            entries_profiles(a) + entries_profiles(b.drop_last()) + entry_profiles(b.last()));
        assert(entries_markers(a) + entries_markers(b) =~=
            entries_markers(a) + entries_markers(b.drop_last()) + entry_markers(b.last()));
    }
}

/// An entry that is neither an item with a user result nor a cursor marker is
/// dropped: the entries around it contribute the same profiles, in the same
/// order, and the same cursor markers as they would without it.
pub proof fn lemma_unrecognized_entry_dropped(a: Seq<Entry>, e: Entry, b: Seq<Entry>)
    requires
        match e.content.item_content {
            Some(item) => item.user_results is None,
            None => e.content.cursor is None,
        },
    ensures
        entries_profiles(a + seq![e] + b) == entries_profiles(a + b),
        entries_markers(a + seq![e] + b) == entries_markers(a + b),
{
    lemma_entries_concat(a, seq![e]);
    lemma_entries_concat(a + seq![e], b);
    lemma_entries_concat(a, b);
    assert(seq![e].drop_last() =~= Seq::<Entry>::empty());
    assert(seq![e].last() == e);
    assert(entries_profiles(Seq::<Entry>::empty()) =~= Seq::<ProfileView>::empty());
    assert(entries_markers(Seq::<Entry>::empty()) =~= Seq::<CursorContent>::empty());
    assert(entry_profiles(e) =~= Seq::<ProfileView>::empty());
    assert(entry_markers(e) =~= Seq::<CursorContent>::empty());
    assert(entries_profiles(seq![e]) =~= Seq::<ProfileView>::empty());
    assert(entries_markers(seq![e]) =~= Seq::<CursorContent>::empty());
    assert(entries_profiles(a + seq![e]) =~= entries_profiles(a));
    assert(entries_markers(a + seq![e]) =~= entries_markers(a));
}

proof fn lemma_last_tagged_wins(ms: Seq<CursorContent>, tag: Seq<char>, j: int)
    requires
        0 <= j < ms.len(),
        has_tag(ms[j], tag),
        forall|k: int| j < k < ms.len() ==> !has_tag(#[trigger] ms[k], tag),
    ensures
        last_cursor(ms, tag) == Some(ms[j].value@),
    decreases ms.len(),
{
    if j < ms.len() - 1 {
        assert(!has_tag(ms[ms.len() - 1], tag));
        let rest = ms.drop_last();
        assert forall|k: int| j < k < rest.len() implies !has_tag(#[trigger] rest[k], tag) by {
            assert(rest[k] == ms[k]);
        }
        lemma_last_tagged_wins(rest, tag, j);
    }
}

/// Last write wins: of the cursor markers met in stream order, whether they
/// come from `AddEntries` or `ReplaceEntry` instructions, the page keeps, per
/// direction, the value of the last one of that direction.
pub proof fn lemma_later_cursor_wins(t: RelationshipTimeline, j: int)
    requires
        t.data is Some,
        0 <= j < stream_markers(t.data->Some_0.instructions@).len(),
    ensures
        ({
            let ms = stream_markers(t.data->Some_0.instructions@);
            &&& (has_tag(ms[j], BOTTOM_TAG@) && forall|k: int| j < k < ms.len() ==> !has_tag(#[trigger] ms[k], BOTTOM_TAG@))
                ==> page_of(t).next == Some(ms[j].value@)
            &&& (has_tag(ms[j], TOP_TAG@) && forall|k: int| j < k < ms.len() ==> !has_tag(#[trigger] ms[k], TOP_TAG@))
                ==> page_of(t).previous == Some(ms[j].value@)
        }),
{
    let ms = stream_markers(t.data->Some_0.instructions@);
    if has_tag(ms[j], BOTTOM_TAG@) && forall|k: int| j < k < ms.len() ==> !has_tag(#[trigger] ms[k], BOTTOM_TAG@) {
        lemma_last_tagged_wins(ms, BOTTOM_TAG@, j);
    }
    if has_tag(ms[j], TOP_TAG@) && forall|k: int| j < k < ms.len() ==> !has_tag(#[trigger] ms[k], TOP_TAG@) {
        lemma_last_tagged_wins(ms, TOP_TAG@, j);
    }
}

/// Decoding is a function of the response alone: two decodings of the same
/// response give the same page.
pub proof fn lemma_decode_deterministic(t: RelationshipTimeline, r1: QueryProfilesResponse, r2: QueryProfilesResponse)
    requires
        r1@ == page_of(t),
        r2@ == page_of(t),
    ensures
        r1@ == r2@,
{
}

} // verus!
