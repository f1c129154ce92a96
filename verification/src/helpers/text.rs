//! Text encodings shared by the storage layer: the comma-joined list of
//! task parameters, and decimal numerals.
use vstd::prelude::*;

verus! {

/// The character sequences that a list of strings holds.
pub open spec fn texts(v: Seq<String>) -> Seq<Seq<char>> {
    v.map_values(|s: String| s@)
}

/// The items of `items` with `sep` between each two neighbours.
pub open spec fn join_with(items: Seq<Seq<char>>, sep: char) -> Seq<char>
    decreases items.len(),
{
    if items.len() == 0 {
        Seq::empty()
    } else if items.len() == 1 {
        items[0]
    } else {
        join_with(items.drop_last(), sep) + seq![sep] + items.last()
    }
}

/// The pieces of `s` between occurrences of `sep`, as `str::split` yields
/// them: the empty text gives one empty piece, and a separator at either end
/// gives an empty piece there.
pub open spec fn split_on(s: Seq<char>, sep: char) -> Seq<Seq<char>>
    decreases s.len(),
{
    if s.len() == 0 {
        seq![Seq::empty()]
    } else {
        let rest = split_on(s.drop_last(), sep);
        if s.last() == sep {
            rest.push(Seq::empty())
        } else {
            rest.update(rest.len() - 1, rest.last().push(s.last()))
        }
    }
}

/// The character that writes the digit `d` (below ten).
pub open spec fn digit_char(d: nat) -> char {
    if d == 0 { '0' }
    else if d == 1 { '1' }
    else if d == 2 { '2' }
    else if d == 3 { '3' }
    else if d == 4 { '4' }
    else if d == 5 { '5' }
    else if d == 6 { '6' }
    else if d == 7 { '7' }
    else if d == 8 { '8' }
    else { '9' }
}

/// The decimal numeral of `n`, without sign or leading zeros.
pub open spec fn decimal(n: nat) -> Seq<char>
    decreases n,
{
    if n < 10 {
        seq![digit_char(n)]
    } else {
        decimal(n / 10).push(digit_char(n % 10))
    }
}

/// The number that a text of decimal digits denotes, read from its first
/// digit to its last.
pub open spec fn numeral_value(s: Seq<char>) -> int
    decreases s.len(),
{
    if s.len() == 0 {
        0
    } else {
        10 * numeral_value(s.drop_last()) + ((s.last() as int) - ('0' as int))
    }
}

/// Law: the digit character of `d` is the character `d` places after `'0'`.
pub proof fn lemma_digit_char_value(d: nat)
    requires
        d < 10,
    ensures
        digit_char(d) as int == ('0' as int) + d,
{
}

/// Law: the decimal numeral of `n` is made of digits, has no leading zero,
/// and reads back as `n`.
pub proof fn lemma_decimal_reads_back(n: nat)
    ensures
        numeral_value(decimal(n)) == n,
        decimal(n).len() >= 1,
        forall|i: int| 0 <= i < decimal(n).len() ==> '0' <= #[trigger] decimal(n)[i] && decimal(n)[i] <= '9',
        n > 0 ==> decimal(n)[0] != '0',
    decreases n,
{
    if n < 10 {
        lemma_digit_char_value(n);
        assert(decimal(n) == seq![digit_char(n)]);
        assert(decimal(n).drop_last() =~= Seq::<char>::empty());
        assert(numeral_value(Seq::<char>::empty()) == 0);
        assert(numeral_value(decimal(n)) == 10 * numeral_value(decimal(n).drop_last()) + ((
        decimal(n).last() as int) - ('0' as int)));
    } else {
        lemma_decimal_reads_back(n / 10);
        lemma_digit_char_value(n % 10);
        let s = decimal(n);
        assert(s == decimal(n / 10).push(digit_char(n % 10)));
        assert(s.drop_last() =~= decimal(n / 10));
        assert(s.last() == digit_char(n % 10));
        assert(10 * (n / 10) + n % 10 == n);
        assert(numeral_value(s) == 10 * numeral_value(s.drop_last()) + ((s.last() as int) - (
        '0' as int)));
        assert forall|i: int| 0 <= i < s.len() implies '0' <= #[trigger] s[i] && s[i] <= '9' by {
            if i < s.len() - 1 {
                assert(s[i] == decimal(n / 10)[i]);
            }
        }
        assert(s[0] == decimal(n / 10)[0]);
    }
}

proof fn lemma_split_nonempty(s: Seq<char>, sep: char)
    ensures
        split_on(s, sep).len() >= 1,
    decreases s.len(),
{
    if s.len() > 0 {
        lemma_split_nonempty(s.drop_last(), sep);
    }
}

/// Appending text free of `sep` extends the last piece and adds none.
proof fn lemma_split_append_plain(a: Seq<char>, b: Seq<char>, sep: char)
    requires
        !b.contains(sep),
    ensures
        split_on(a + b, sep) == split_on(a, sep).update(
            split_on(a, sep).len() - 1,
            split_on(a, sep).last() + b,
        ),
    decreases b.len(),
{
    lemma_split_nonempty(a, sep);
    if b.len() == 0 {
        assert(a + b =~= a);
        assert(split_on(a, sep).last() + b =~= split_on(a, sep).last());
        assert(split_on(a, sep).update(split_on(a, sep).len() - 1, split_on(a, sep).last())
            =~= split_on(a, sep));
    } else {
        let b0 = b.drop_last();
        assert(!b0.contains(sep)) by {
            if b0.contains(sep) {
                let k = choose|k: int| 0 <= k < b0.len() && b0[k] == sep;
                assert(b[k] == sep);
            }
        }
        lemma_split_append_plain(a, b0, sep);
        assert((a + b).drop_last() =~= a + b0);
        assert((a + b).last() == b.last());
        assert(b.last() != sep) by {
            assert(b[b.len() - 1] == b.last());
        }
        lemma_split_nonempty(a + b0, sep);
        let sa = split_on(a, sep);
        let rest = split_on(a + b0, sep);
        assert(split_on(a + b, sep) == rest.update(rest.len() - 1, rest.last().push(b.last())));
        assert(rest.len() == sa.len());
        assert(rest.last() == sa.last() + b0);
        assert((sa.last() + b0).push(b.last()) =~= sa.last() + b);
        assert(split_on(a + b, sep) =~= split_on(a, sep).update(
            split_on(a, sep).len() - 1,
            split_on(a, sep).last() + b,
        ));
    }
}

/// Law: splitting a joined list on its separator gives the list back, when
/// the list is not empty and no item holds the separator.
pub proof fn lemma_split_join(items: Seq<Seq<char>>, sep: char)
    requires
        items.len() >= 1,
        forall|i: int| 0 <= i < items.len() ==> !(#[trigger] items[i]).contains(sep),
    ensures
        split_on(join_with(items, sep), sep) == items,
    decreases items.len(),
{
    if items.len() == 1 {
        lemma_split_append_plain(Seq::empty(), items[0], sep);
        assert(Seq::<char>::empty() + items[0] =~= items[0]);
        assert(split_on(Seq::<char>::empty(), sep) =~= seq![Seq::<char>::empty()]);
        assert(split_on(items[0], sep) =~= items);
    } else {
        let init = items.drop_last();
        assert forall|i: int| 0 <= i < init.len() implies !(#[trigger] init[i]).contains(sep) by {
            assert(init[i] == items[i]);
        }
        lemma_split_join(init, sep);
        let a = join_with(init, sep) + seq![sep];
        assert(!items.last().contains(sep)) by {
            assert(items[items.len() - 1] == items.last());
        }
        lemma_split_append_plain(a, items.last(), sep);
        assert(a.drop_last() =~= join_with(init, sep));
        assert(split_on(a, sep) == init.push(Seq::empty()));
        assert(Seq::<char>::empty() + items.last() =~= items.last());
        assert(split_on(a + items.last(), sep) =~= items);
    }
}

/// Joins `items` with commas between them.
pub fn join_commas(items: &Vec<String>) -> (joined: String)
    ensures
        joined@ == join_with(texts(items@), ','),
{
    let ghost views = texts(items@);
    let mut joined = String::new();
    let mut i: usize = 0;
    while i < items.len()
        invariant
            i <= items.len(),
            views == texts(items@),
            joined@ == join_with(views.take(i as int), ','),
        decreases items.len() - i,
    {
        proof {
            reveal_strlit(",");
            assert(views.take(i + 1).drop_last() =~= views.take(i as int));
            assert(views.take(i + 1).last() == items@[i as int]@);
        }
        if i > 0 {
            joined.append(",");
        } else {
            assert(views.take(1) =~= seq![items@[0]@]);
        }
        joined.append(items[i].as_str());
        i = i + 1;
    }
    assert(views.take(items.len() as int) =~= views);
    joined
}

/// Splits `text` at each comma, as `str::split(",")` does.
pub fn split_commas(text: &str) -> (pieces: Vec<String>)
    ensures
        texts(pieces@) == split_on(text@, ','),
{
    let n = text.unicode_len();
    let mut pieces: Vec<String> = Vec::new();
    let mut start: usize = 0;
    let mut i: usize = 0;
    assert(text@.take(0) =~= Seq::<char>::empty());
    assert(texts(pieces@).push(text@.subrange(0, 0)) =~= seq![
        Seq::<char>::empty(),
    ]);
    while i < n
        invariant
            n == text@.len(),
            start <= i <= n,
            split_on(text@.take(i as int), ',') == texts(pieces@).push(
                text@.subrange(start as int, i as int),
            ),
        decreases n - i,
    {
        let c = text.get_char(i);
        assert(text@.take(i + 1).drop_last() =~= text@.take(i as int));
        assert(text@.take(i + 1).last() == c);
        if c == ',' {
            let ghost before = texts(pieces@);
            let piece = String::from_str(text.substring_char(start, i));
            pieces.push(piece);
            assert(texts(pieces@) =~= before.push(
                text@.subrange(start as int, i as int),
            ));
            start = i + 1;
            assert(text@.subrange(start as int, i + 1) =~= Seq::<char>::empty());
        } else {
            assert(text@.subrange(start as int, i as int).push(c) =~= text@.subrange(
                start as int,
                i + 1,
            ));
        }
        i = i + 1;
    }
    assert(text@.take(n as int) =~= text@);
    let ghost before = texts(pieces@);
    let last = String::from_str(text.substring_char(start, n));
    pieces.push(last);
    assert(texts(pieces@) =~= before.push(text@.subrange(start as int, n as int)));
    assert(texts(pieces@) =~= split_on(text@, ','));
    pieces
}

/// The one-character text of the digit `d`.
fn digit_text(d: u32) -> (t: &'static str)
    requires
        d < 10,
    ensures
        t@ == seq![digit_char(d as nat)],
{
    proof {
        reveal_strlit("0");
        reveal_strlit("1");
        reveal_strlit("2");
        reveal_strlit("3");
        reveal_strlit("4");
        reveal_strlit("5");
        reveal_strlit("6");
        reveal_strlit("7");
        reveal_strlit("8");
        reveal_strlit("9");
    }
    if d == 0 {
        "0"
    } else if d == 1 {
        "1"
    } else if d == 2 {
        "2"
    } else if d == 3 {
        "3"
    } else if d == 4 {
        "4"
    } else if d == 5 {
        "5"
    } else if d == 6 {
        "6"
    } else if d == 7 {
        "7"
    } else if d == 8 {
        "8"
    } else {
        "9"
    }
}

/// Appends the decimal numeral of `n` to `out`, as `format!("{}", n)` writes it.
pub fn append_decimal(out: &mut String, n: u32)
    ensures
        final(out)@ == old(out)@ + decimal(n as nat),
    decreases n,
{
    if n >= 10 {
        append_decimal(out, n / 10);
    }
    out.append(digit_text(n % 10));
    assert(out@ =~= old(out)@ + decimal(n as nat));
}

/// Whether two texts hold the same characters.
pub fn same_text(a: &str, b: &str) -> (same: bool)
    ensures
        same == (a@ == b@),
{
    let n = a.unicode_len();
    if n != b.unicode_len() {
        return false;
    }
    let mut i: usize = 0;
    while i < n
        invariant
            n == a@.len(),
            n == b@.len(),
            i <= n,
            forall|j: int| 0 <= j < i ==> a@[j] == b@[j],
        decreases n - i,
    {
        if a.get_char(i) != b.get_char(i) {
            return false;
        }
        i = i + 1;
    }
    assert(a@ =~= b@);
    true
}

} // verus!
