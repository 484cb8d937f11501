//! Looking tracks up, labelling them and marking the selected ones.
use crate::models;
use crate::models::NativeTrackInfo;
use crate::models::Track;
use crate::ordered::NameSet;
use crate::text;
use vstd::prelude::*;

verus! {

/// The first track that meets a condition.
pub open spec fn first(list: Seq<Track>, wanted: spec_fn(Track) -> bool) -> Option<Track>
    decreases list.len(),
{
    if list.len() == 0 {
        None
    } else if wanted(list[0]) {
        Some(list[0])
    } else {
        first(list.drop_first(), wanted)
    }
}

/// The first track with an index.
pub open spec fn first_with_index(list: Seq<Track>, index: i32) -> Option<Track> {
    first(list, |track: Track| track.index == index)
}

/// The first track with an id.
pub open spec fn first_with_id(list: Seq<Track>, id: Seq<char>) -> Option<Track> {
    first(list, |track: Track| track.id == id)
}

proof fn lemma_first_behind(list: Seq<Track>, wanted: spec_fn(Track) -> bool, at: int)
    requires
        0 <= at < list.len(),
    ensures
        first(list.skip(at), wanted) == if wanted(list[at]) {
            Some(list[at])
        } else {
            first(list.skip(at + 1), wanted)
        },
{
    assert(list.skip(at).drop_first() =~= list.skip(at + 1));
}

/// Finds the first track with an index.
pub fn find_index(list: &Vec<NativeTrackInfo>, index: i32) -> (found: Option<usize>)
    ensures
        match found {
            Some(at) => at < list@.len() && first_with_index(models::tracks(list@), index) == Some(
                list@[at as int]@,
            ),
            None => first_with_index(models::tracks(list@), index) == None::<Track>,
        },
{
    let ghost all = models::tracks(list@);
    let ghost wanted = |track: Track| track.index == index;
    let mut at: usize = 0;
    assert(all.skip(0) =~= all);
    while at < list.len()
        invariant
            at <= list@.len(),
            all == models::tracks(list@),
            wanted == (|track: Track| track.index == index),
            first(all, wanted) == first(all.skip(at as int), wanted),
        decreases list@.len() - at,
    {
        proof {
            lemma_first_behind(all, wanted, at as int);
        }
        if list[at].index == index {
            return Some(at);
        }
        at = at + 1;
    }
    None
}

/// Finds the first track with an id.
pub fn find_id(list: &Vec<NativeTrackInfo>, id: &str) -> (found: Option<usize>)
    ensures
        match found {
            Some(at) => at < list@.len() && first_with_id(models::tracks(list@), id@) == Some(
                list@[at as int]@,
            ),
            None => first_with_id(models::tracks(list@), id@) == None::<Track>,
        },
{
    let ghost all = models::tracks(list@);
    let ghost wanted = |track: Track| track.id == id@;
    let mut at: usize = 0;
    assert(all.skip(0) =~= all);
    while at < list.len()
        invariant
            at <= list@.len(),
            all == models::tracks(list@),
            wanted == (|track: Track| track.id == id@),
            first(all, wanted) == first(all.skip(at as int), wanted),
        decreases list@.len() - at,
    {
        proof {
            lemma_first_behind(all, wanted, at as int);
        }
        if text::same(list[at].id.as_str(), id) {
            return Some(at);
        }
        at = at + 1;
    }
    None
}

/// The track, selected exactly when its id is among the given ones.
pub open spec fn marked(track: Track, selected: Seq<Seq<char>>) -> Track {
    Track { selected: selected.contains(track.id), ..track }
}

/// All tracks, each selected exactly when its id is among the given ones.
pub open spec fn all_marked(list: Seq<Track>, selected: Seq<Seq<char>>) -> Seq<Track> {
    list.map_values(|track: Track| marked(track, selected))
}

/// Marks the tracks whose ids are selected, and unmarks the others.
pub fn mark(list: &mut Vec<NativeTrackInfo>, selected: &NameSet)
    ensures
        models::tracks(final(list)@) == all_marked(models::tracks(old(list)@), selected@),
{
    let ghost before = models::tracks(list@);
    let mut at: usize = 0;
    while at < list.len()
        invariant
            at <= list@.len(),
            list@.len() == before.len(),
            forall|i: int| 0 <= i < at ==> (#[trigger] list@[i])@ == marked(before[i], selected@),
            forall|i: int| at <= i < list@.len() ==> (#[trigger] list@[i])@ == before[i],
        decreases list@.len() - at,
    {
        let chosen = selected.contains(list[at].id.as_str());
        list[at].selected = chosen;
        at = at + 1;
    }
    assert(models::tracks(list@) =~= all_marked(before, selected@));
}

/// The label of a track: its title, or without one its language in capitals,
/// or without either a plain name.
pub open spec fn labelled(
    title: Seq<char>,
    has_language: bool,
    capitals: Seq<char>,
    plain: Seq<char>,
) -> Seq<char> {
    if title.len() > 0 {
        title
    } else if has_language {
        capitals
    } else {
        plain
    }
}

/// Chooses the label of a track.
pub fn label(title: String, has_language: bool, capitals: String, plain: String) -> (label: String)
    ensures
        label@ == labelled(title@, has_language, capitals@, plain@),
{
    if !title.as_str().is_empty() {
        title
    } else if has_language {
        capitals
    } else {
        plain
    }
}

/// The track that is found meets the condition and no earlier one does; none is
/// found only where none meets it.
pub proof fn the_first_is_found(list: Seq<Track>, wanted: spec_fn(Track) -> bool)
    ensures
        match first(list, wanted) {
            Some(track) => exists|i: int|
                0 <= i < list.len() && #[trigger] list[i] == track && wanted(track) && forall|
                    j: int,
                |
                    0 <= j < i ==> !wanted(#[trigger] list[j]),
            None => forall|i: int| 0 <= i < list.len() ==> !wanted(#[trigger] list[i]),
        },
    decreases list.len(),
{
    if list.len() > 0 && !wanted(list[0]) {
        let rest = list.drop_first();
        the_first_is_found(rest, wanted);
        match first(rest, wanted) {
            Some(track) => {
                let i = choose|i: int|
                    0 <= i < rest.len() && #[trigger] rest[i] == track && wanted(track) && forall|
                        j: int,
                    |
                        0 <= j < i ==> !wanted(#[trigger] rest[j]);
                assert forall|j: int| 0 <= j < i + 1 implies !wanted(#[trigger] list[j]) by {
                    if j > 0 {
                        assert(!wanted(rest[j - 1]));
                    }
                }
                assert(list[i + 1] == track);
            },
            None => {
                assert forall|j: int| 0 <= j < list.len() implies !wanted(#[trigger] list[j]) by {
                    if j > 0 {
                        assert(!wanted(rest[j - 1]));
                    }
                }
            },
        }
    } else if list.len() > 0 {
        assert(list[0] == first(list, wanted)->0);
    }
}

/// The track that is found by an index has it, and no earlier track does.
pub proof fn indices_are_looked_up(list: Seq<Track>, index: i32)
    ensures
        match first_with_index(list, index) {
            Some(track) => track.index == index && exists|i: int|
                0 <= i < list.len() && #[trigger] list[i] == track && forall|j: int|
                    0 <= j < i ==> (#[trigger] list[j]).index != index,
            None => forall|i: int| 0 <= i < list.len() ==> (#[trigger] list[i]).index != index,
        },
{
    let wanted = |track: Track| track.index == index;
    the_first_is_found(list, wanted);
    match first_with_index(list, index) {
        Some(track) => {
            let i = choose|i: int|
                0 <= i < list.len() && #[trigger] list[i] == track && wanted(track) && forall|
                    j: int,
                |
                    0 <= j < i ==> !wanted(#[trigger] list[j]);
            assert forall|j: int| 0 <= j < i implies (#[trigger] list[j]).index != index by {
                assert(!wanted(list[j]));
            }
        },
        None => {
            assert forall|i: int| 0 <= i < list.len() implies (#[trigger] list[i]).index
                != index by {
                assert(!wanted(list[i]));
            }
        },
    }
}

/// The track that is found by an id has it, and no earlier track does.
pub proof fn ids_are_looked_up(list: Seq<Track>, id: Seq<char>)
    ensures
        match first_with_id(list, id) {
            Some(track) => track.id == id && exists|i: int|
                0 <= i < list.len() && #[trigger] list[i] == track && forall|j: int|
                    0 <= j < i ==> (#[trigger] list[j]).id != id,
            None => forall|i: int| 0 <= i < list.len() ==> (#[trigger] list[i]).id != id,
        },
{
    let wanted = |track: Track| track.id == id;
    the_first_is_found(list, wanted);
    match first_with_id(list, id) {
        Some(track) => {
            let i = choose|i: int|
                0 <= i < list.len() && #[trigger] list[i] == track && wanted(track) && forall|
                    j: int,
                |
                    0 <= j < i ==> !wanted(#[trigger] list[j]);
            assert forall|j: int| 0 <= j < i implies (#[trigger] list[j]).id != id by {
                assert(!wanted(list[j]));
            }
        },
        None => {
            assert forall|i: int| 0 <= i < list.len() implies (#[trigger] list[i]).id != id by {
                assert(!wanted(list[i]));
            }
        },
    }
}

/// Marking changes nothing but the marks, and marks exactly what is selected.
pub proof fn marks_are_all_that_changes(list: Seq<Track>, selected: Seq<Seq<char>>, at: int)
    requires
        0 <= at < list.len(),
    ensures
        all_marked(list, selected).len() == list.len(),
        ({
            let track = all_marked(list, selected)[at];
            &&& track.selected == selected.contains(list[at].id)
            &&& track.id == list[at].id
            &&& track.index == list[at].index
            &&& track.kind == list[at].kind
            &&& track.language == list[at].language
            &&& track.label == list[at].label
            &&& track.codec == list[at].codec
        }),
{
}

/// A title is the label; without one it is the language in capitals, and
/// without that the plain name.
pub proof fn titles_come_first(title: Seq<char>, capitals: Seq<char>, plain: Seq<char>)
    requires
        title.len() > 0,
    ensures
        labelled(title, true, capitals, plain) == title,
        labelled(title, false, capitals, plain) == title,
        labelled(Seq::empty(), true, capitals, plain) == capitals,
        labelled(Seq::empty(), false, capitals, plain) == plain,
{
}

} // verus!
