//! The turns that thread items belong to.
use vstd::prelude::*;

use crate::json::{json_elements, json_members, json_text, JsonMemberView};
use crate::threads::errors::{ThreadErrorView, ThreadStoreError};

verus! {

/// Whether a text comes before another one, character by character.
pub open spec fn text_before(a: Seq<char>, b: Seq<char>) -> bool
    decreases a.len(),
{
    if b.len() == 0 {
        false
    } else if a.len() == 0 {
        true
    } else if a[0] != b[0] {
        (a[0] as int) < (b[0] as int)
    } else {
        text_before(a.drop_first(), b.drop_first())
    }
}

/// Of two texts one comes before the other, or they are the same.
proof fn texts_compare(a: Seq<char>, b: Seq<char>)
    ensures
        text_before(a, b) || a == b || text_before(b, a),
        !(text_before(a, b) && text_before(b, a)),
        text_before(a, b) ==> a != b,
    decreases a.len(),
{
    if a.len() > 0 && b.len() > 0 {
        if a[0] == b[0] {
            texts_compare(a.drop_first(), b.drop_first());
            if a.drop_first() == b.drop_first() {
                assert(a =~= seq![a[0]] + a.drop_first());
                assert(b =~= seq![b[0]] + b.drop_first());
            }
        }
    } else if a.len() == 0 && b.len() == 0 {
        assert(a =~= b);
    }
}

/// The order of texts is transitive.
proof fn texts_chain(a: Seq<char>, b: Seq<char>, c: Seq<char>)
    requires
        text_before(a, b),
        text_before(b, c),
    ensures
        text_before(a, c),
    decreases a.len(),
{
    if a.len() > 0 && b.len() > 0 && c.len() > 0 {
        if a[0] == b[0] && b[0] == c[0] {
            texts_chain(a.drop_first(), b.drop_first(), c.drop_first());
        }
    }
}

/// Whether texts stand in order, each once.
pub open spec fn in_order(texts: Seq<Seq<char>>) -> bool {
    forall|i: int, j: int| 0 <= i < j < texts.len() ==> text_before(
        #[trigger] texts[i],
        #[trigger] texts[j],
    )
}

/// The number of a character.
fn code_point(character: char) -> (r: u32)
    ensures
        r == character as int,
{
    character as u32
}

/// Whether a text comes before another one.
fn is_before(a: &Vec<char>, b: &Vec<char>) -> (r: bool)
    ensures
        r == text_before(a@, b@),
{
    let mut i: usize = 0;
    assert(a@.skip(0) =~= a@);
    assert(b@.skip(0) =~= b@);
    while i < a.len() && i < b.len() && a[i] == b[i]
        invariant
            i <= a@.len(),
            i <= b@.len(),
            text_before(a@, b@) == text_before(a@.skip(i as int), b@.skip(i as int)),
        decreases a@.len() - i,
    {
        proof {
            let x = a@.skip(i as int);
            let y = b@.skip(i as int);
            assert(x[0] == a@[i as int] && y[0] == b@[i as int]);
            assert(x.drop_first() =~= a@.skip(i + 1));
            assert(y.drop_first() =~= b@.skip(i + 1));
        }
        i = i + 1;
    }
    proof {
        let x = a@.skip(i as int);
        let y = b@.skip(i as int);
        if i < a@.len() {
            assert(x[0] == a@[i as int]);
        }
        if i < b@.len() {
            assert(y[0] == b@[i as int]);
        }
    }
    if i >= b.len() {
        false
    } else if i >= a.len() {
        true
    } else {
        let x: u32 = code_point(a[i]);
        let y: u32 = code_point(b[i]);
        x < y
    }
}

/// Puts a text into its place among texts that stand in order; one that is there stays there
/// once.
fn insert_in_order(texts: &mut Vec<String>, text: String)
    requires
        in_order(old(texts).deep_view()),
    ensures
        in_order(final(texts).deep_view()),
        forall|t: Seq<char>| #[trigger]
            final(texts).deep_view().contains(t) <==> old(texts).deep_view().contains(t) || t
                == text@,
{
    let wanted = crate::text::characters(text.as_str());
    let ghost before = texts.deep_view();
    let mut at: usize = 0;
    while at < texts.len()
        invariant
            wanted@ == text@,
            at <= texts@.len(),
            texts.deep_view() == before,
            forall|i: int| 0 <= i < at ==> text_before(#[trigger] before[i], text@),
        ensures
            at < texts@.len() ==> !text_before(before[at as int], text@),
        decreases texts@.len() - at,
    {
        let current = crate::text::characters(texts[at].as_str());
        if !is_before(&current, &wanted) {
            break;
        }
        at = at + 1;
    }
    if at < texts.len() && texts[at] == text {
        assert(before[at as int] == text@);
        return;
    }
    let ghost shown = text@;
    texts.insert(at, text);
    proof {
        let after = texts.deep_view();
        assert(after =~= before.insert(at as int, shown));
        if at < before.len() {
            texts_compare(before[at as int], shown);
        }
        assert forall|i: int, j: int| 0 <= i < j < after.len() implies text_before(
            #[trigger] after[i],
            #[trigger] after[j],
        ) by {
            if i == at {
                assert(after[j] == before[j - 1]);
                if j - 1 > at {
                    texts_chain(shown, before[at as int], before[j - 1]);
                }
            } else if j == at {
                assert(after[i] == before[i]);
            } else {
                let i0 = if i < at { i } else { i - 1 };
                let j0 = if j < at { j } else { j - 1 };
                assert(after[i] == before[i0] && after[j] == before[j0]);
            }
        }
        assert forall|t: Seq<char>| #[trigger] after.contains(t) <==> before.contains(t) || t
            == shown by {
            if before.contains(t) {
                let i = choose|i: int| 0 <= i < before.len() && before[i] == t;
                let i1 = if i < at { i } else { i + 1 };
                assert(after[i1] == t);
            }
            if t == shown {
                assert(after[at as int] == t);
            }
            if after.contains(t) {
                let i = choose|i: int| 0 <= i < after.len() && after[i] == t;
                if i < at {
                    assert(before[i] == t);
                } else if i > at {
                    assert(before[i - 1] == t);
                }
            }
        }
    }
}

/// Whether a member is a text under the name `turn_id`, and which one.
pub open spec fn member_names_turn(member: JsonMemberView, turn_id: Seq<char>) -> bool {
    member.name == "turn_id"@ && json_text(member.json) == Some(turn_id)
}

/// Whether a turn is named anywhere in the JSON: by a text member `turn_id` of an object in
/// it.
pub open spec fn json_names_turn(json: Seq<char>, turn_id: Seq<char>) -> bool
    decreases json.len(),
{
    match json_members(json) {
        Some(members) => exists|i: int|
            0 <= i < members.len() && (#[trigger] members[i]).json.len() < json.len() && (
            member_names_turn(members[i], turn_id) || json_names_turn(members[i].json, turn_id)),
        None => match json_elements(json) {
            Some(elements) => exists|i: int|
                0 <= i < elements.len() && (#[trigger] elements[i]).len() < json.len()
                    && json_names_turn(elements[i], turn_id),
            None => false,
        },
    }
}

/// The turns that JSON names are those that its objects hold as a text under `turn_id`, however
/// deep they stand; other JSON names none.
pub proof fn turns_are_named_by_their_members(
    json: Seq<char>,
    members: Seq<JsonMemberView>,
    elements: Seq<Seq<char>>,
    i: int,
    turn_id: Seq<char>,
)
    ensures
        json_members(json) == Some(members) && 0 <= i < members.len() && members[i].json.len()
            < json.len() ==> {
            &&& members[i].name == "turn_id"@ && json_text(members[i].json) == Some(turn_id)
                ==> json_names_turn(json, turn_id)
            &&& json_names_turn(members[i].json, turn_id) ==> json_names_turn(json, turn_id)
        },
        json_members(json) is None && json_elements(json) == Some(elements) && 0 <= i
            < elements.len() && elements[i].len() < json.len() && json_names_turn(
            elements[i],
            turn_id,
        ) ==> json_names_turn(json, turn_id),
        json_members(json) is None && json_elements(json) is None ==> !json_names_turn(
            json,
            turn_id,
        ),
        json_members(json) == Some(members) && json_names_turn(json, turn_id) ==> exists|k: int|
            0 <= k < members.len() && ((#[trigger] members[k]).name == "turn_id"@ && json_text(
                members[k].json,
            ) == Some(turn_id) || json_names_turn(members[k].json, turn_id)),
{
    if json_members(json) is Some {
        if 0 <= i < members.len() && members[i].json.len() < json.len() && json_members(json)
            == Some(members) {
            assert(json_members(json)->0[i].json.len() < json.len());
        }
        if json_members(json) == Some(members) && json_names_turn(json, turn_id) {
            let k = choose|k: int|
                0 <= k < members.len() && (#[trigger] members[k]).json.len() < json.len() && (
                member_names_turn(members[k], turn_id) || json_names_turn(
                    members[k].json,
                    turn_id,
                ));
            assert(members[k].json.len() < json.len());
        }
    } else if json_elements(json) == Some(elements) {
        if 0 <= i < elements.len() && elements[i].len() < json.len() {
            assert(json_elements(json)->0[i].len() < json.len());
        }
    }
}

/// An object names the turns that its members name.
proof fn members_name_turn(json: Seq<char>, members: Seq<JsonMemberView>, turn_id: Seq<char>)
    requires
        json_members(json) == Some(members),
        forall|i: int| 0 <= i < members.len() ==> (#[trigger] members[i]).json.len() < json.len(),
    ensures
        json_names_turn(json, turn_id) <==> exists|i: int|
            0 <= i < members.len() && (member_names_turn(#[trigger] members[i], turn_id)
                || json_names_turn(members[i].json, turn_id)),
{
    if json_names_turn(json, turn_id) {
        let i = choose|i: int|
            0 <= i < members.len() && (#[trigger] members[i]).json.len() < json.len() && (
            member_names_turn(members[i], turn_id) || json_names_turn(members[i].json, turn_id));
        assert(member_names_turn(members[i], turn_id) || json_names_turn(members[i].json, turn_id));
    }
    if exists|i: int|
        0 <= i < members.len() && (member_names_turn(#[trigger] members[i], turn_id)
            || json_names_turn(members[i].json, turn_id)) {
        let i = choose|i: int|
            0 <= i < members.len() && (member_names_turn(#[trigger] members[i], turn_id)
                || json_names_turn(members[i].json, turn_id));
        assert(json_members(json)->0[i].json.len() < json.len());
        assert(json_names_turn(json, turn_id));
    }
}

/// An array names the turns that its elements name.
proof fn elements_name_turn(json: Seq<char>, elements: Seq<Seq<char>>, turn_id: Seq<char>)
    requires
        json_members(json) is None,
        json_elements(json) == Some(elements),
        forall|i: int| 0 <= i < elements.len() ==> (#[trigger] elements[i]).len() < json.len(),
    ensures
        json_names_turn(json, turn_id) <==> exists|i: int|
            0 <= i < elements.len() && json_names_turn(#[trigger] elements[i], turn_id),
{
    if json_names_turn(json, turn_id) {
        let i = choose|i: int|
            0 <= i < elements.len() && (#[trigger] elements[i]).len() < json.len()
                && json_names_turn(elements[i], turn_id);
        assert(json_names_turn(elements[i], turn_id));
    }
    if exists|i: int| 0 <= i < elements.len() && json_names_turn(#[trigger] elements[i], turn_id) {
        let i = choose|i: int|
            0 <= i < elements.len() && json_names_turn(#[trigger] elements[i], turn_id);
        assert(json_elements(json)->0[i].len() < json.len());
        assert(json_names_turn(json, turn_id));
    }
}

/// Adds the turns that are named in the JSON, keeping them in order and each once.
pub fn collect_turn_ids(json: &str, turn_ids: &mut Vec<String>)
    requires
        in_order(old(turn_ids).deep_view()),
    ensures
        in_order(final(turn_ids).deep_view()),
        forall|t: Seq<char>| #[trigger]
            final(turn_ids).deep_view().contains(t) <==> old(turn_ids).deep_view().contains(t)
                || json_names_turn(json@, t),
    decreases json@.len(),
{
    let ghost before = turn_ids.deep_view();
    if let Some(members) = crate::json::read_members(json) {
        let ghost shown = members.deep_view();
        let mut n: usize = 0;
        while n < members.len()
            invariant
                n <= members@.len(),
                shown == members.deep_view(),
                forall|i: int|
                    0 <= i < shown.len() ==> (#[trigger] shown[i]).json.len() < json@.len(),
                in_order(turn_ids.deep_view()),
                forall|t: Seq<char>| #[trigger]
                    turn_ids.deep_view().contains(t) <==> before.contains(t) || exists|i: int|
                        0 <= i < n && (member_names_turn(#[trigger] shown[i], t)
                            || json_names_turn(shown[i].json, t)),
            decreases members@.len() - n,
        {
            let ghost so_far = turn_ids.deep_view();
            let member = &members[n];
            assert(shown[n as int] == member.deep_view());
            if member.name == "turn_id".to_owned() {
                if let Some(text) = crate::json::read_text(member.json.as_str()) {
                    insert_in_order(turn_ids, text);
                }
            }
            let ghost named = turn_ids.deep_view();
            assert forall|t: Seq<char>| #[trigger] named.contains(t) <==> so_far.contains(t)
                || member_names_turn(shown[n as int], t) by {}
            collect_turn_ids(member.json.as_str(), turn_ids);
            assert forall|t: Seq<char>| #[trigger]
                turn_ids.deep_view().contains(t) <==> before.contains(t) || exists|i: int|
                    0 <= i < n + 1 && (member_names_turn(#[trigger] shown[i], t)
                        || json_names_turn(shown[i].json, t)) by {
                assert(named.contains(t) <==> so_far.contains(t) || member_names_turn(
                    shown[n as int],
                    t,
                ));
                assert(so_far.contains(t) <==> before.contains(t) || exists|i: int|
                    0 <= i < n && (member_names_turn(#[trigger] shown[i], t)
                        || json_names_turn(shown[i].json, t)));
            }
            n = n + 1;
        }
        assert forall|t: Seq<char>| #[trigger] json_names_turn(json@, t) <==> exists|i: int|
            0 <= i < n && (member_names_turn(#[trigger] shown[i], t) || json_names_turn(
                shown[i].json,
                t,
            )) by {
            members_name_turn(json@, shown, t);
        }
    } else if let Some(elements) = crate::json::read_elements(json) {
        let ghost shown = elements.deep_view();
        let mut n: usize = 0;
        while n < elements.len()
            invariant
                n <= elements@.len(),
                shown == elements.deep_view(),
                forall|i: int| 0 <= i < shown.len() ==> (#[trigger] shown[i]).len() < json@.len(),
                in_order(turn_ids.deep_view()),
                forall|t: Seq<char>| #[trigger]
                    turn_ids.deep_view().contains(t) <==> before.contains(t) || exists|i: int|
                        0 <= i < n && json_names_turn(#[trigger] shown[i], t),
            decreases elements@.len() - n,
        {
            let ghost so_far = turn_ids.deep_view();
            assert(shown[n as int] == elements@[n as int]@);
            collect_turn_ids(elements[n].as_str(), turn_ids);
            assert forall|t: Seq<char>| #[trigger]
                turn_ids.deep_view().contains(t) <==> before.contains(t) || exists|i: int|
                    0 <= i < n + 1 && json_names_turn(#[trigger] shown[i], t) by {
                assert(so_far.contains(t) <==> before.contains(t) || exists|i: int|
                    0 <= i < n && json_names_turn(#[trigger] shown[i], t));
            }
            n = n + 1;
        }
        assert forall|t: Seq<char>| #[trigger] json_names_turn(json@, t) <==> exists|i: int|
            0 <= i < n && json_names_turn(#[trigger] shown[i], t) by {
            elements_name_turn(json@, shown, t);
        }
    }
}

/// Whether a turn is named in one of the items.
pub open spec fn names_turn(items: Seq<Seq<char>>, turn_id: Seq<char>) -> bool {
    exists|i: int| 0 <= i < items.len() && json_names_turn(#[trigger] items[i], turn_id)
}

/// Whether texts are the turns that are named in the items, in order and each once.
pub open spec fn lists_turns(items: Seq<Seq<char>>, turn_ids: Seq<Seq<char>>) -> bool {
    &&& in_order(turn_ids)
    &&& forall|t: Seq<char>| #[trigger] turn_ids.contains(t) <==> names_turn(items, t)
}

/// The turns that are named in the items, in order and each once.
pub open spec fn turns_of(items: Seq<Seq<char>>) -> Seq<Seq<char>> {
    choose|turn_ids: Seq<Seq<char>>| lists_turns(items, turn_ids)
}

/// There is only one way to put texts in order.
pub proof fn order_is_unique(a: Seq<Seq<char>>, b: Seq<Seq<char>>)
    requires
        in_order(a),
        in_order(b),
        forall|t: Seq<char>| #[trigger] a.contains(t) <==> b.contains(t),
    ensures
        a == b,
    decreases a.len(),
{
    if a.len() == 0 {
        if b.len() > 0 {
            assert(b.contains(b[0]));
            assert(a.contains(b[0]));
        }
        assert(a =~= b);
    } else {
        assert(a.contains(a.last()));
        assert(b.contains(a.last()));
        assert(b.contains(b.last()));
        assert(a.contains(b.last()));
        let i = choose|i: int| 0 <= i < b.len() && b[i] == a.last();
        let j = choose|j: int| 0 <= j < a.len() && a[j] == b.last();
        texts_compare(a.last(), b.last());
        assert(a.last() == b.last());
        let x = a.drop_last();
        let y = b.drop_last();
        assert forall|t: Seq<char>| #[trigger] x.contains(t) <==> y.contains(t) by {
            if x.contains(t) {
                let k = choose|k: int| 0 <= k < x.len() && x[k] == t;
                assert(a[k] == t);
                texts_compare(t, a.last());
                assert(a.contains(t));
                assert(b.contains(t));
                let l = choose|l: int| 0 <= l < b.len() && b[l] == t;
                assert(y[l] == t);
            }
            if y.contains(t) {
                let k = choose|k: int| 0 <= k < y.len() && y[k] == t;
                assert(b[k] == t);
                texts_compare(t, b.last());
                assert(b.contains(t));
                assert(a.contains(t));
                let l = choose|l: int| 0 <= l < a.len() && a[l] == t;
                assert(x[l] == t);
            }
        }
        assert forall|k: int, l: int| 0 <= k < l < x.len() implies text_before(
            #[trigger] x[k],
            #[trigger] x[l],
        ) by {
            assert(text_before(a[k], a[l]));
        }
        assert forall|k: int, l: int| 0 <= k < l < y.len() implies text_before(
            #[trigger] y[k],
            #[trigger] y[l],
        ) by {
            assert(text_before(b[k], b[l]));
        }
        order_is_unique(x, y);
        assert(a =~= x.push(a.last()));
        assert(b =~= y.push(b.last()));
    }
}

/// The turns that items, given as JSON, are named to belong to, in order and each once.
pub fn rollout_item_turn_ids(items: &Vec<String>) -> (r: Vec<String>)
    ensures
        lists_turns(items.deep_view(), r.deep_view()),
        r.deep_view() == turns_of(items.deep_view()),
{
    let ghost shown = items.deep_view();
    let mut turn_ids: Vec<String> = Vec::new();
    let mut n: usize = 0;
    while n < items.len()
        invariant
            n <= items@.len(),
            shown == items.deep_view(),
            in_order(turn_ids.deep_view()),
            forall|t: Seq<char>| #[trigger]
                turn_ids.deep_view().contains(t) <==> exists|i: int|
                    0 <= i < n && json_names_turn(#[trigger] shown[i], t),
        decreases items@.len() - n,
    {
        let ghost so_far = turn_ids.deep_view();
        assert(shown[n as int] == items@[n as int]@);
        collect_turn_ids(items[n].as_str(), &mut turn_ids);
        assert forall|t: Seq<char>| #[trigger]
            turn_ids.deep_view().contains(t) <==> exists|i: int|
                0 <= i < n + 1 && json_names_turn(#[trigger] shown[i], t) by {
            assert(so_far.contains(t) <==> exists|i: int|
                0 <= i < n && json_names_turn(#[trigger] shown[i], t));
        }
        n = n + 1;
    }
    proof {
        let listed = turn_ids.deep_view();
        assert forall|t: Seq<char>| #[trigger] listed.contains(t) <==> names_turn(shown, t) by {}
        assert(lists_turns(shown, listed));
        let chosen = turns_of(shown);
        assert(lists_turns(shown, chosen));
        assert forall|t: Seq<char>| #[trigger] listed.contains(t) <==> chosen.contains(t) by {}
        order_is_unique(listed, chosen);
    }
    turn_ids
}

/// Texts joined by commas.
pub open spec fn joined(texts: Seq<Seq<char>>) -> Seq<char>
    decreases texts.len(),
{
    if texts.len() == 0 {
        Seq::empty()
    } else if texts.len() == 1 {
        texts[0]
    } else {
        joined(texts.drop_last()) + ", "@ + texts.last()
    }
}

/// The one turn that items belong to, if they belong to any; it is a conflict if they belong
/// to several.
pub open spec fn one_turn(turn_ids: Seq<Seq<char>>) -> Result<Option<Seq<char>>, ThreadErrorView> {
    if turn_ids.len() == 0 {
        Ok(None)
    } else if turn_ids.len() == 1 {
        Ok(Some(turn_ids[0]))
    } else {
        Err(
            ThreadErrorView::Conflict {
                message: "append contains multiple turn ids: "@ + joined(turn_ids),
            },
        )
    }
}

fn join(texts: &Vec<String>) -> (r: String)
    requires
        texts@.len() > 0,
    ensures
        r@ == joined(texts.deep_view()),
{
    let mut text = texts[0].clone();
    let mut n: usize = 1;
    assert(texts.deep_view().take(1) =~= seq![texts@[0]@]);
    while n < texts.len()
        invariant
            1 <= n <= texts@.len(),
            text@ == joined(texts.deep_view().take(n as int)),
        decreases texts@.len() - n,
    {
        text.append(", ");
        text.append(texts[n].as_str());
        proof {
            let longer = texts.deep_view().take(n + 1);
            assert(longer.drop_last() =~= texts.deep_view().take(n as int));
            assert(longer.last() == texts@[n as int]@);
        }
        n = n + 1;
    }
    assert(texts.deep_view().take(n as int) =~= texts.deep_view());
    text
}

/// The one turn that items belong to, if they belong to any.
pub fn single_turn_id(turn_ids: Vec<String>) -> (r: Result<Option<String>, ThreadStoreError>)
    ensures
        crate::threads::errors::thread_outcome(r) == one_turn(turn_ids.deep_view()),
{
    if turn_ids.len() == 0 {
        Ok(None)
    } else if turn_ids.len() == 1 {
        Ok(Some(turn_ids[0].clone()))
    } else {
        let mut message = "append contains multiple turn ids: ".to_owned();
        let all = join(&turn_ids);
        message.append(all.as_str());
        Err(ThreadStoreError::Conflict { message })
    }
}

} // verus!
