//! The texts that the views show and print.
use vstd::prelude::*;
use crate::decimal::{
    decimal, digits_value, is_digit, lemma_decimal_injective, lemma_prefixed_decimal,
    push_decimal,
};

verus! {

/// The root view's heading for `name`: `Hello, {name}!`.
pub open spec fn greeting_text(name: Seq<char>) -> Seq<char> {
    "Hello, "@ + name + "!"@
}

/// The label of the list entry, or of the dragged item, numbered `n`: `Item {n}`.
pub open spec fn item_label_text(n: nat) -> Seq<char> {
    "Item "@ + decimal(n)
}

/// The label of the draggable item at index `ix`: `Item ({ix})`.
pub open spec fn source_label_text(ix: nat) -> Seq<char> {
    "Item ("@ + decimal(ix) + ")"@
}

/// The line printed when the list entry numbered `n` is clicked: `clicked Item {n}`.
pub open spec fn click_message_text(n: nat) -> Seq<char> {
    "clicked Item "@ + decimal(n)
}

/// The heading is `Hello, ` and then the whole name, unchanged, and then `!`.
pub proof fn lemma_greeting_keeps_name(name: Seq<char>)
    ensures
        greeting_text(name).len() == name.len() + 8,
        greeting_text(name).take(7) == "Hello, "@,
        greeting_text(name).subrange(7, 7 + name.len() as int) == name,
        greeting_text(name).last() == '!',
{
    reveal_strlit("Hello, ");
    reveal_strlit("!");
    let s = greeting_text(name);
    assert(s.take(7) =~= "Hello, "@);
    assert(s.subrange(7, 7 + name.len() as int) =~= name);
}

/// The label numbered `n` is `Item ` and then the shortest digit string denoting `n`.
pub proof fn lemma_item_label_names_number(n: nat)
    ensures
        item_label_text(n).len() > 5,
        item_label_text(n).take(5) == "Item "@,
        forall|i: int| 5 <= i < item_label_text(n).len() ==> is_digit(#[trigger] item_label_text(n)[i]),
        item_label_text(n)[5] == '0' <==> n == 0,
        digits_value(item_label_text(n).skip(5)) == n,
{
    reveal_strlit("Item ");
    lemma_prefixed_decimal("Item "@, n);
}

/// The line printed on a click is `clicked Item ` and then the shortest digit string
/// denoting the clicked number `n`.
pub proof fn lemma_click_names_number(n: nat)
    ensures
        click_message_text(n).len() > 13,
        click_message_text(n).take(13) == "clicked Item "@,
        forall|i: int| 13 <= i < click_message_text(n).len() ==> is_digit(#[trigger] click_message_text(n)[i]),
        click_message_text(n)[13] == '0' <==> n == 0,
        digits_value(click_message_text(n).skip(13)) == n,
{
    reveal_strlit("clicked Item ");
    lemma_prefixed_decimal("clicked Item "@, n);
}

/// The label of the draggable item at `ix` is `Item (`, then the shortest digit string
/// denoting `ix`, then `)`.
pub proof fn lemma_source_label_names_index(ix: nat)
    ensures
        source_label_text(ix).len() > 7,
        source_label_text(ix).take(6) == "Item ("@,
        source_label_text(ix).last() == ')',
        forall|i: int| 6 <= i < source_label_text(ix).len() - 1 ==> is_digit(#[trigger] source_label_text(ix)[i]),
        source_label_text(ix)[6] == '0' <==> ix == 0,
        digits_value(source_label_text(ix).subrange(6, source_label_text(ix).len() - 1)) == ix,
{
    reveal_strlit("Item (");
    reveal_strlit(")");
    lemma_prefixed_decimal("Item ("@, ix);
    let t = "Item ("@ + decimal(ix);
    let s = source_label_text(ix);
    assert(s == t + ")"@);
    assert(s.take(6) =~= t.take(6));
    assert(s.subrange(6, s.len() - 1) =~= t.skip(6));
    assert forall|i: int| 6 <= i < s.len() - 1 implies is_digit(#[trigger] s[i]) by {
        assert(s[i] == t[i]);
    }
    assert(s[6] == t[6]);
}

/// Two list entries with different numbers have different labels.
pub proof fn lemma_item_labels_distinct(a: nat, b: nat)
    requires
        item_label_text(a) == item_label_text(b),
    ensures
        a == b,
{
    reveal_strlit("Item ");
    let prefix = "Item "@;
    assert(item_label_text(a).skip(prefix.len() as int) =~= decimal(a));
    assert(item_label_text(b).skip(prefix.len() as int) =~= decimal(b));
    lemma_decimal_injective(a, b);
}

/// The line printed on a click names the entry exactly as its label does.
pub proof fn lemma_click_names_label(n: nat)
    ensures
        click_message_text(n) == "clicked "@ + item_label_text(n),
{
    reveal_strlit("clicked Item ");
    reveal_strlit("clicked ");
    reveal_strlit("Item ");
    assert(click_message_text(n) =~= "clicked "@ + item_label_text(n));
}

/// The root view's heading, `format!("Hello, {}!", name)`.
pub fn greeting(name: &str) -> (s: String)
    ensures
        s@ == greeting_text(name@),
        s@.len() == name@.len() + 8,
        s@.take(7) == "Hello, "@,
        s@.subrange(7, 7 + name@.len() as int) == name@,
        s@.last() == '!',
{
    let mut s = String::from_str("Hello, ");
    s.append(name);
    s.append("!");
    proof { lemma_greeting_keeps_name(name@); }
    s
}

/// `format!("Item {n}")`.
pub fn item_label(n: usize) -> (s: String)
    ensures
        s@ == item_label_text(n as nat),
        s@.len() > 5,
        s@.take(5) == "Item "@,
        forall|i: int| 5 <= i < s@.len() ==> is_digit(#[trigger] s@[i]),
        s@[5] == '0' <==> n == 0,
        digits_value(s@.skip(5)) == n,
{
    let mut s = String::from_str("Item ");
    push_decimal(&mut s, n);
    proof { lemma_item_label_names_number(n as nat); }
    s
}

/// `format!("Item ({})", ix)`.
pub fn source_label(ix: usize) -> (s: String)
    ensures
        s@ == source_label_text(ix as nat),
        s@.len() > 7,
        s@.take(6) == "Item ("@,
        s@.last() == ')',
        forall|i: int| 6 <= i < s@.len() - 1 ==> is_digit(#[trigger] s@[i]),
        s@[6] == '0' <==> ix == 0,
        digits_value(s@.subrange(6, s@.len() - 1)) == ix,
{
    let mut s = String::from_str("Item (");
    push_decimal(&mut s, ix);
    s.append(")");
    proof { lemma_source_label_names_index(ix as nat); }
    s
}

/// `format!("clicked Item {n:?}")`; an integer's `Debug` form is its decimal form.
pub fn click_message(n: usize) -> (s: String)
    ensures
        s@ == click_message_text(n as nat),
        s@.len() > 13,
        s@.take(13) == "clicked Item "@,
        forall|i: int| 13 <= i < s@.len() ==> is_digit(#[trigger] s@[i]),
        s@[13] == '0' <==> n == 0,
        digits_value(s@.skip(13)) == n,
{
    let mut s = String::from_str("clicked Item ");
    push_decimal(&mut s, n);
    proof { lemma_click_names_number(n as nat); }
    s
}

} // verus!
