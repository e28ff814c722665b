//! Finding the Babyface Pro among the sound cards that `/proc/asound/cards` lists.
use vstd::prelude::*;
use crate::text::{first_word, first_word_of, lines, lines_of, same_text, trim, trimmed};

verus! {

/// The card numbers that `/proc/asound/cards` lists: the first word of every
/// other line, from the first line on (each card takes two lines).
pub open spec fn card_list(ls: Seq<Seq<char>>) -> Seq<Seq<char>>
    decreases ls.len(),
{
    if ls.len() == 0 {
        Seq::empty()
    } else {
        let rest = if ls.len() >= 2 {
            card_list(ls.skip(2))
        } else {
            Seq::empty()
        };
        match first_word(ls[0]) {
            Some(w) => seq![w] + rest,
            None => rest,
        }
    }
}

/// Lists the card numbers in the text of `/proc/asound/cards`.
pub fn card_indices(cards: &str) -> (r: Vec<String>)
    ensures
        r.deep_view() == card_list(lines_of(cards@)),
{
    let ls = lines(cards);
    let ghost all = lines_of(cards@);
    let mut out: Vec<String> = Vec::new();
    let ghost mut got: Seq<Seq<char>> = Seq::empty();
    let mut i: usize = 0;
    assert(all.skip(0) =~= all);
    while i < ls.len()
        invariant
            i <= ls.len(),
            ls.deep_view() == all,
            all == lines_of(cards@),
            out.deep_view() == got,
            card_list(all) == got + card_list(all.skip(i as int)),
        decreases ls.len() - i,
    {
        let ghost tail = all.skip(i as int);
        assert(tail[0] == ls[i as int]@);
        let next = if ls.len() - i >= 2 {
            i + 2
        } else {
            ls.len()
        };
        assert(tail.len() >= 2 ==> tail.skip(2) =~= all.skip(next as int));
        assert(tail.len() < 2 ==> all.skip(next as int) =~= Seq::<Seq<char>>::empty());
        match first_word_of(ls[i].as_str()) {
            Some(w) => {
                proof {
                    assert(got + (seq![w@] + card_list(all.skip(next as int))) =~= got.push(w@)
                        + card_list(all.skip(next as int)));
                    got = got.push(w@);
                }
                out.push(w);
                assert(out.deep_view() =~= got);
            },
            None => {},
        }
        i = next;
    }
    assert(all.skip(i as int) =~= Seq::<Seq<char>>::empty());
    assert(got + Seq::<Seq<char>>::empty() =~= got);
    out
}

/// The USB id of the Babyface Pro in class compliant mode.
pub open spec fn is_babyface_id(id: Seq<char>) -> bool {
    trimmed(id) == "2a39:3fb0"@
}

/// Tells whether the text of a card's `usbid` file names the Babyface Pro.
pub fn is_babyface_usb_id(id: &str) -> (r: bool)
    ensures
        r == is_babyface_id(id@),
{
    same_text(trim(id), "2a39:3fb0")
}

/// A card whose `usbid` could be read and names the Babyface Pro.
pub open spec fn is_babyface_entry(id: Option<Seq<char>>) -> bool {
    match id {
        Some(u) => is_babyface_id(u),
        None => false,
    }
}

/// The first card, in list order, whose `usbid` names the Babyface Pro.
pub open spec fn babyface_among(idx: Seq<Seq<char>>, ids: Seq<Option<Seq<char>>>) -> Option<
    Seq<char>,
>
    decreases idx.len(),
{
    if idx.len() == 0 || ids.len() == 0 {
        None
    } else if is_babyface_entry(ids[0]) {
        Some(idx[0])
    } else {
        babyface_among(idx.drop_first(), ids.drop_first())
    }
}

/// Picks the first card whose `usbid` text (`None` where it could not be read)
/// names the Babyface Pro.
pub fn select_babyface_card(indices: &Vec<String>, usb_ids: &Vec<Option<String>>) -> (r: Result<
    String,
    String,
>)
    ensures
        r matches Ok(c) ==> babyface_among(indices.deep_view(), usb_ids.deep_view()) == Some(
            c@,
        ),
        r matches Err(e) ==> babyface_among(indices.deep_view(), usb_ids.deep_view()) is None
            && e@ == "No RME Babyface Pro found"@,
        forall|k: int|
            0 <= k < indices.len() && k < usb_ids.len() && is_babyface_entry(
                #[trigger] usb_ids.deep_view()[k],
            ) && (forall|j: int| 0 <= j < k ==> !is_babyface_entry(usb_ids.deep_view()[j]))
                ==> (r matches Ok(c) && c@ == indices[k]@),
        (forall|k: int|
            0 <= k < indices.len() && k < usb_ids.len() ==> !is_babyface_entry(
                #[trigger] usb_ids.deep_view()[k],
            )) ==> r is Err,
{
    let r = first_babyface_card(indices, usb_ids);
    proof {
        crate::laws::lemma_babyface_is_first_match(indices.deep_view(), usb_ids.deep_view());
    }
    r
}

fn first_babyface_card(indices: &Vec<String>, usb_ids: &Vec<Option<String>>) -> (r: Result<
    String,
    String,
>)
    ensures
        r matches Ok(c) ==> babyface_among(indices.deep_view(), usb_ids.deep_view()) == Some(
            c@,
        ),
        r matches Err(e) ==> babyface_among(indices.deep_view(), usb_ids.deep_view()) is None
            && e@ == "No RME Babyface Pro found"@,
{
    let ghost idx = indices.deep_view();
    let ghost ids = usb_ids.deep_view();
    let mut i: usize = 0;
    assert(idx.skip(0) =~= idx);
    assert(ids.skip(0) =~= ids);
    while i < indices.len() && i < usb_ids.len()
        invariant
            i <= indices.len(),
            i <= usb_ids.len(),
            idx == indices.deep_view(),
            ids == usb_ids.deep_view(),
            babyface_among(idx, ids) == babyface_among(idx.skip(i as int), ids.skip(i as int)),
        decreases indices.len() - i,
    {
        assert(idx.skip(i as int).drop_first() =~= idx.skip(i + 1));
        assert(ids.skip(i as int).drop_first() =~= ids.skip(i + 1));
        assert(ids.skip(i as int)[0] == usb_ids[i as int].deep_view());
        assert(idx.skip(i as int)[0] == indices[i as int]@);
        let hit = match &usb_ids[i] {
            Some(u) => is_babyface_usb_id(u.as_str()),
            None => false,
        };
        if hit {
            return Ok(indices[i].clone());
        }
        i = i + 1;
    }
    Err(String::from_str("No RME Babyface Pro found"))
}

} // verus!
