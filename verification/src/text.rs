//! Small verified operations on text.

use vstd::prelude::*;
use vstd::utf8::*;

verus! {

/// The characters of a text that may be absent.
pub open spec fn optional_text_view(text: Option<String>) -> Option<Seq<char>> {
    match text {
        Some(s) => Some(s@),
        None => None,
    }
}

/// The characters of each text in a run of texts.
pub open spec fn texts_view(texts: Seq<String>) -> Seq<Seq<char>> {
    Seq::new(texts.len(), |i: int| texts[i]@)
}

/// The characters of each text in a run of texts that may be absent.
pub open spec fn optional_texts_view(texts: Option<Vec<String>>) -> Option<Seq<Seq<char>>> {
    match texts {
        Some(v) => Some(texts_view(v@)),
        None => None,
    }
}

/// Whether two pieces of text hold the same characters.
pub fn same_text(a: &str, b: &str) -> (r: bool)
    ensures
        r == (a@ == b@),
{
    let x = a.as_bytes();
    let y = b.as_bytes();
    proof {
        encode_utf8_decode_utf8(a@);
        encode_utf8_decode_utf8(b@);
    }
    if x.len() != y.len() {
        return false;
    }
    let n: usize = x.len();
    let mut i: usize = 0;
    while i < n
        invariant
            i <= n,
            n == x@.len(),
            n == y@.len(),
            x@ == encode_utf8(a@),
            y@ == encode_utf8(b@),
            forall|k: int| 0 <= k < i ==> x@[k] == y@[k],
        decreases n - i,
    {
        if x[i] != y[i] {
            return false;
        }
        i += 1;
    }
    assert(x@ =~= y@);
    true
}

// ---------------------------------------------------------------------------
// Trailing slashes
// ---------------------------------------------------------------------------
/// `s` without the slashes at its end.
pub open spec fn without_trailing_slashes(s: Seq<char>) -> Seq<char>
    decreases s.len(),
{
    if s.len() > 0 && s.last() == '/' {
        without_trailing_slashes(s.drop_last())
    } else {
        s
    }
}

/// Cuts the slashes off the end of `text`.
pub fn strip_trailing_slashes(text: &str) -> (r: &str)
    ensures
        r@ == without_trailing_slashes(text@),
{
    let mut end: usize = text.unicode_len();
    let mut cut = false;
    assert(text@.take(end as int) =~= text@);
    while end > 0 && !cut
        invariant
            end <= text@.len(),
            without_trailing_slashes(text@) == without_trailing_slashes(text@.take(end as int)),
            cut ==> end > 0 && text@[end - 1] != '/',
        decreases end + if cut { 0int } else { 1int },
    {
        if text.get_char(end - 1) != '/' {
            cut = true;
        } else {
            assert(text@.take(end as int).drop_last() =~= text@.take(end - 1));
            end -= 1;
        }
    }
    assert(text@.subrange(0, end as int) =~= text@.take(end as int));
    text.substring_char(0, end)
}

// ---------------------------------------------------------------------------
// Lists written with commas
// ---------------------------------------------------------------------------
/// The items written one after another with a comma between neighbours.
pub open spec fn joined(items: Seq<Seq<char>>) -> Seq<char>
    decreases items.len(),
{
    if items.len() == 0 {
        Seq::empty()
    } else if items.len() == 1 {
        items[0]
    } else {
        joined(items.drop_last()) + seq![','] + items.last()
    }
}

/// The pieces into which the commas cut `s`; there is always at least one.
pub open spec fn pieces(s: Seq<char>) -> Seq<Seq<char>>
    decreases s.len(),
{
    if s.len() == 0 {
        seq![Seq::empty()]
    } else if s.last() == ',' {
        pieces(s.drop_last()).push(Seq::empty())
    } else {
        let before = pieces(s.drop_last());
        before.drop_last().push(before.last().push(s.last()))
    }
}

/// The list that `s` spells: no item where `s` is empty, else the pieces
/// between its commas.
pub open spec fn separated(s: Seq<char>) -> Seq<Seq<char>> {
    if s.len() == 0 {
        Seq::empty()
    } else {
        pieces(s)
    }
}

/// Whether `s` holds a comma.
pub open spec fn has_comma(s: Seq<char>) -> bool {
    exists|i: int| 0 <= i < s.len() && s[i] == ','
}

/// Writes the items one after another with a comma between neighbours.
pub fn join_commas(items: &Vec<String>) -> (r: String)
    ensures
        r@ == joined(texts_view(items@)),
{
    let ghost all = texts_view(items@);
    let mut out = String::new();
    let mut i: usize = 0;
    assert(all.take(0) =~= Seq::empty());
    while i < items.len()
        invariant
            i <= items.len(),
            all == texts_view(items@),
            out@ == joined(all.take(i as int)),
        decreases items.len() - i,
    {
        proof {
            reveal_strlit(",");
            assert(all.take(i + 1).drop_last() =~= all.take(i as int));
            assert(all.take(i + 1).last() == items@[i as int]@);
            assert(","@ =~= seq![',']);
        }
        if i > 0 {
            out.append(",");
            out.append(items[i].as_str());
        } else {
            out.append(items[i].as_str());
            assert(out@ =~= items@[0]@);
        }
        i += 1;
    }
    assert(all.take(items.len() as int) =~= all);
    out
}

/// There is always at least one piece.
proof fn lemma_pieces_nonempty(s: Seq<char>)
    ensures
        pieces(s).len() >= 1,
    decreases s.len(),
{
    if s.len() > 0 {
        lemma_pieces_nonempty(s.drop_last());
    }
}

/// Reads a list written with commas.
pub fn split_commas(text: &str) -> (r: Vec<String>)
    ensures
        texts_view(r@) == separated(text@),
{
    let n: usize = text.unicode_len();
    let mut out: Vec<String> = Vec::new();
    if n == 0 {
        assert(texts_view(out@) =~= separated(text@));
        return out;
    }
    let mut start: usize = 0;
    let mut i: usize = 0;
    proof {
        assert(text@.take(0) =~= Seq::<char>::empty());
        assert(text@.subrange(0, 0) =~= Seq::<char>::empty());
        assert(texts_view(out@).push(Seq::<char>::empty()) =~= seq![Seq::<char>::empty()]);
    }
    while i < n
        invariant
            i <= n,
            n == text@.len(),
            start <= i,
            pieces(text@.take(i as int)) == texts_view(out@).push(
                text@.subrange(start as int, i as int),
            ),
        decreases n - i,
    {
        let ghost before = pieces(text@.take(i as int));
        let ghost done = texts_view(out@);
        proof {
            assert(text@.take(i + 1).drop_last() =~= text@.take(i as int));
            assert(text@.take(i + 1).last() == text@[i as int]);
            assert(before.drop_last() =~= done);
            assert(before.last() == text@.subrange(start as int, i as int));
        }
        if text.get_char(i) == ',' {
            out.push(String::from_str(text.substring_char(start, i)));
            start = i + 1;
            proof {
                assert(texts_view(out@) =~= done.push(before.last()));
                assert(text@.subrange(start as int, i + 1) =~= Seq::<char>::empty());
            }
        } else {
            proof {
                assert(text@.subrange(start as int, i + 1) =~= before.last().push(
                    text@[i as int],
                ));
            }
        }
        i += 1;
    }
    let ghost done = texts_view(out@);
    out.push(String::from_str(text.substring_char(start, n)));
    proof {
        assert(text@.take(n as int) =~= text@);
        assert(texts_view(out@) =~= done.push(text@.subrange(start as int, n as int)));
    }
    out
}

/// Cutting at the commas undoes writing with commas: a list that is not
/// empty, whose items hold no comma and which is not the one empty text, is
/// read back as it was written.
pub proof fn lemma_separated_joined(items: Seq<Seq<char>>)
    requires
        items.len() > 0,
        forall|i: int| 0 <= i < items.len() ==> !has_comma(#[trigger] items[i]),
        !(items.len() == 1 && items[0].len() == 0),
    ensures
        separated(joined(items)) == items,
{
    lemma_pieces_joined(items);
    if joined(items).len() == 0 {
        if items.len() > 1 {
            assert(joined(items) =~= joined(items.drop_last()) + seq![','] + items.last());
            assert((joined(items.drop_last()) + seq![','] + items.last()).len() > 0);
        }
    }
}

/// The pieces of a list written with commas are its items, where no item
/// holds a comma.
pub proof fn lemma_pieces_joined(items: Seq<Seq<char>>)
    requires
        items.len() > 0,
        forall|i: int| 0 <= i < items.len() ==> !has_comma(#[trigger] items[i]),
    ensures
        pieces(joined(items)) == items,
    decreases items.len(),
{
    if items.len() == 1 {
        lemma_pieces_append(Seq::empty(), items[0]);
        assert(Seq::<char>::empty() + items[0] =~= items[0]);
        assert(seq![Seq::<char>::empty()].drop_last().push(Seq::<char>::empty() + items[0])
            =~= items);
    } else {
        let head = items.drop_last();
        assert forall|i: int| 0 <= i < head.len() implies !has_comma(#[trigger] head[i]) by {
            assert(head[i] == items[i]);
        }
        lemma_pieces_joined(head);
        let written = joined(head) + seq![','];
        assert(written.drop_last() =~= joined(head));
        assert(pieces(written) == head.push(Seq::empty()));
        lemma_pieces_append(written, items.last());
        assert(Seq::<char>::empty() + items.last() =~= items.last());
        assert(head.push(Seq::<char>::empty()).drop_last().push(items.last()) =~= items);
    }
}

/// Text without a comma, written after `s`, only makes the last piece of `s`
/// longer.
proof fn lemma_pieces_append(s: Seq<char>, tail: Seq<char>)
    requires
        !has_comma(tail),
    ensures
        pieces(s + tail) == pieces(s).drop_last().push(pieces(s).last() + tail),
    decreases tail.len(),
{
    lemma_pieces_nonempty(s);
    if tail.len() == 0 {
        assert(s + tail =~= s);
        assert(pieces(s).last() + tail =~= pieces(s).last());
        assert(pieces(s).drop_last().push(pieces(s).last()) =~= pieces(s));
    } else {
        let shorter = tail.drop_last();
        assert(!has_comma(shorter)) by {
            if has_comma(shorter) {
                let i = choose|i: int| 0 <= i < shorter.len() && shorter[i] == ',';
                assert(tail[i] == ',');
            }
        }
        assert(tail.last() != ',') by {
            if tail.last() == ',' {
                assert(tail[tail.len() - 1] == ',');
            }
        }
        lemma_pieces_append(s, shorter);
        assert((s + tail).drop_last() =~= s + shorter);
        assert((s + tail).last() == tail.last());
        let before = pieces(s + shorter);
        assert(before.last().push(tail.last()) =~= pieces(s).last() + tail) by {
            assert(shorter.push(tail.last()) =~= tail);
        }
        assert(before.drop_last() =~= pieces(s).drop_last());
    }
}

// ---------------------------------------------------------------------------
// Numbers and flags as text
// ---------------------------------------------------------------------------
/// The character of a decimal digit.
pub open spec fn digit(d: nat) -> char {
    if d == 0 {
        '0'
    } else if d == 1 {
        '1'
    } else if d == 2 {
        '2'
    } else if d == 3 {
        '3'
    } else if d == 4 {
        '4'
    } else if d == 5 {
        '5'
    } else if d == 6 {
        '6'
    } else if d == 7 {
        '7'
    } else if d == 8 {
        '8'
    } else {
        '9'
    }
}

/// A number in decimal digits, without leading zeros.
pub open spec fn decimal(n: nat) -> Seq<char>
    decreases n,
{
    if n < 10 {
        seq![digit(n)]
    } else {
        decimal(n / 10).push(digit(n % 10))
    }
}

/// `true` or `false`.
pub open spec fn flag_text(flag: bool) -> Seq<char> {
    if flag {
        "true"@
    } else {
        "false"@
    }
}

/// The text of one decimal digit.
fn digit_text(d: u64) -> (r: &'static str)
    requires
        d < 10,
    ensures
        r@ == seq![digit(d as nat)],
{
    proof {
        reveal_strlit("0");
        reveal_strlit("1");
        reveal_strlit("2");
        reveal_strlit("3");
        reveal_strlit("4");
        reveal_strlit("5");
        reveal_strlit("6");
        reveal_strlit("7");
        reveal_strlit("8");
        reveal_strlit("9");
    }
    let r = if d == 0 {
        "0"
    } else if d == 1 {
        "1"
    } else if d == 2 {
        "2"
    } else if d == 3 {
        "3"
    } else if d == 4 {
        "4"
    } else if d == 5 {
        "5"
    } else if d == 6 {
        "6"
    } else if d == 7 {
        "7"
    } else if d == 8 {
        "8"
    } else {
        "9"
    };
    assert(r@ =~= seq![digit(d as nat)]);
    r
}

/// Writes a number in decimal digits.
pub fn decimal_text(n: u64) -> (r: String)
    ensures
        r@ == decimal(n as nat),
    decreases n,
{
    if n < 10 {
        String::from_str(digit_text(n))
    } else {
        let mut out = decimal_text(n / 10);
        out.append(digit_text(n % 10));
        assert(out@ =~= decimal(n as nat));
        out
    }
}

/// Writes a flag as `true` or `false`.
pub fn flag_to_text(flag: bool) -> (r: String)
    ensures
        r@ == flag_text(flag),
{
    if flag {
        String::from_str("true")
    } else {
        String::from_str("false")
    }
}

} // verus!
