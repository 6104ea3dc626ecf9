use vstd::prelude::*;
use vstd::string::*;
use crate::map::stars::StarNode;

verus! {

/// The character of a decimal digit `0 <= d < 10`.
pub open spec fn digit_char(d: int) -> char {
    if d == 0 {
        '0'
    } else if d == 1 {
        '1'
    } else if d == 2 {
        '2'
    } else if d == 3 {
        '3'
    } else if d == 4 {
        '4'
    } else if d == 5 {
        '5'
    } else if d == 6 {
        '6'
    } else if d == 7 {
        '7'
    } else if d == 8 {
        '8'
    } else {
        '9'
    }
}

/// The decimal notation of `n`, most significant digit first, with no leading zero.
pub open spec fn decimal(n: nat) -> Seq<char>
    decreases n,
{
    if n < 10 {
        seq![digit_char(n as int)]
    } else {
        decimal(n / 10).push(digit_char((n % 10) as int))
    }
}

/// `digits` split into groups of three from the right, the groups separated by one space:
/// the leftmost group holds one to three characters.
pub open spec fn group_thousands(digits: Seq<char>) -> Seq<char>
    decreases digits.len(),
{
    if digits.len() <= 3 {
        digits
    } else {
        group_thousands(digits.take(digits.len() - 3)) + seq![' '] + digits.skip(
            digits.len() - 3,
        )
    }
}

/// The one-character text of the digit `d`.
fn digit_str(d: u64) -> (s: &'static str)
    requires
        d < 10,
    ensures
        s@ == seq![digit_char(d as int)],
{
    proof {
        reveal_strlit("0");
        reveal_strlit("1");
        reveal_strlit("2");
        reveal_strlit("3");
        reveal_strlit("4");
        reveal_strlit("5");
        reveal_strlit("6");
        reveal_strlit("7");
        reveal_strlit("8");
        reveal_strlit("9");
    }
    match d {
        0 => "0",
        1 => "1",
        2 => "2",
        3 => "3",
        4 => "4",
        5 => "5",
        6 => "6",
        7 => "7",
        8 => "8",
        _ => "9",
    }
}

/// The decimal notation of `n`, built from its last digit leftwards.
pub fn decimal_string(n: u64) -> (s: String)
    ensures
        s@ == decimal(n as nat),
{
    let mut res = String::from_str(digit_str(n % 10));
    let mut m: u64 = n / 10;
    while m > 0
        invariant
            m > 0 ==> decimal(n as nat) == decimal(m as nat) + res@,
            m == 0 ==> decimal(n as nat) == res@,
        decreases m,
    {
        let mut next = String::from_str(digit_str(m % 10));
        next.append(res.as_str());
        proof {
            if m >= 10 {
                assert(decimal(m as nat) == decimal((m / 10) as nat).push(digit_char((m % 10) as int)));
                assert(decimal((m / 10) as nat).push(digit_char((m % 10) as int)) + res@
                    =~= decimal((m / 10) as nat) + next@);
            } else {
                assert(seq![digit_char(m as int)] + res@ =~= next@);
            }
        }
        res = next;
        m = m / 10;
    }
    res
}

proof fn lemma_group_step(d: Seq<char>, i: int)
    requires
        0 < i,
        i + 3 <= d.len(),
    ensures
        group_thousands(d.take(i + 3)) == group_thousands(d.take(i)) + seq![' '] + d.subrange(i, i + 3),
{
    let t = d.take(i + 3);
    assert(t.take(t.len() - 3) =~= d.take(i));
    assert(t.skip(t.len() - 3) =~= d.subrange(i, i + 3));
}

/// `digits` with a space between each group of three characters, counted from the right.
fn group_digits(digits: &str) -> (res: String)
    ensures
        res@ == group_thousands(digits@),
{
    let len = digits.unicode_len();
    let ghost d = digits@;
    proof {
        reveal_strlit(" ");
    }
    let first: usize = if len % 3 == 0 && len > 0 { 3 } else { len % 3 };
    let mut res = digits.substring_char(0, first).to_owned();
    assert(d.subrange(0, first as int) =~= d.take(first as int));
    assert(group_thousands(d.take(first as int)) == d.take(first as int));
    let mut i: usize = first;
    while i < len
        invariant
            d == digits@,
            len == d.len(),
            first <= i <= len,
            (len - i) % 3 == 0,
            i > 0 || len == 0,
            res@ == group_thousands(d.take(i as int)),
            " "@ == seq![' '],
        decreases len - i,
    {
        let ghost before = res@;
        res.append(" ");
        res.append(digits.substring_char(i, i + 3));
        proof {
            lemma_group_step(d, i as int);
        }
        i = i + 3;
    }
    assert(d.take(len as int) =~= d);
    res
}

/// Writes `n` in decimal with a space between each group of three digits, counted from the
/// right: `8000000000` becomes `"8 000 000 000"`.
pub fn format_number(n: u64) -> (res: String)
    ensures
        res@ == group_thousands(decimal(n as nat)),
{
    let s = decimal_string(n);
    group_digits(s.as_str())
}

/// A quantity given in hundredths, written with two decimals: `437` becomes `"4.37"`.
pub open spec fn hundredths(c: nat) -> Seq<char> {
    decimal(c / 100) + seq!['.', digit_char(((c / 10) % 10) as int), digit_char((c % 10) as int)]
}

/// The decimal notation of `c`, with leading zeros added up to three digits.
pub open spec fn padded_decimal(c: nat) -> Seq<char> {
    if c >= 100 {
        decimal(c)
    } else if c >= 10 {
        seq!['0'] + decimal(c)
    } else {
        seq!['0', '0'] + decimal(c)
    }
}

/// Two decimals of a quantity in hundredths keep every digit: the text is the decimal
/// notation of `c` (padded to three digits) with a point before its last two digits, so the
/// part before the point is the whole quantity, however large.
pub proof fn lemma_hundredths_keeps_all_digits(c: nat)
    ensures
        hundredths(c).len() >= 4,
        hundredths(c)[hundredths(c).len() - 3] == '.',
        hundredths(c).take(hundredths(c).len() - 3) + hundredths(c).skip(hundredths(c).len() - 2)
            == padded_decimal(c),
{
    let h = hundredths(c);
    lemma_decimal_digits(c / 100);
    let w = decimal(c / 100);
    assert(h.take(h.len() - 3) =~= w);
    assert(h.skip(h.len() - 2) =~= seq![digit_char(((c / 10) % 10) as int), digit_char((c % 10) as int)]);
    if c >= 100 {
        assert(decimal(c) == decimal(c / 10).push(digit_char((c % 10) as int)));
        assert(c / 10 >= 10);
        assert(decimal(c / 10) == decimal(c / 10 / 10).push(digit_char(((c / 10) % 10) as int)));
        assert(c / 10 / 10 == c / 100);
        assert(decimal(c) =~= w + seq![digit_char(((c / 10) % 10) as int), digit_char((c % 10) as int)]);
    } else if c >= 10 {
        assert(c / 100 == 0);
        assert(w == seq!['0']);
        assert(decimal(c) == decimal(c / 10).push(digit_char((c % 10) as int)));
        assert(c / 10 < 10 && (c / 10) % 10 == c / 10);
        assert(padded_decimal(c) =~= w + seq![digit_char(((c / 10) % 10) as int), digit_char((c % 10) as int)]);
    } else {
        assert(c / 100 == 0);
        assert(w == seq!['0']);
        assert((c / 10) % 10 == 0);
        assert(c % 10 == c);
        assert(padded_decimal(c) =~= w + seq![digit_char(((c / 10) % 10) as int), digit_char((c % 10) as int)]);
    }
}

/// Writes a quantity given in hundredths with two decimals.
pub fn format_hundredths(c: u32) -> (res: String)
    ensures
        res@ == hundredths(c as nat),
        res@.len() >= 4,
        res@[res@.len() - 3] == '.',
        res@.take(res@.len() - 3) + res@.skip(res@.len() - 2) == padded_decimal(c as nat),
{
    proof {
        lemma_hundredths_keeps_all_digits(c as nat);
    }
    let mut res = decimal_string((c / 100) as u64);
    proof {
        reveal_strlit(".");
    }
    res.append(".");
    res.append(digit_str(((c / 10) % 10) as u64));
    res.append(digit_str((c % 10) as u64));
    res
}

/// The lines of a star's info menu, top to bottom: its name, its type, its distance (only
/// when it is not zero), its population with grouped digits, and how to close the menu.
pub open spec fn menu_lines(star: StarNode) -> Seq<Seq<char>> {
    let head = seq!["★ "@ + star.name@, "Type: "@ + star.star_type@];
    let distance = if star.distance_centi_ly > 0 {
        seq!["Distance: "@ + hundredths(star.distance_centi_ly as nat) + " al"@]
    } else {
        Seq::empty()
    };
    head + distance + seq![
        "Population: "@ + group_thousands(decimal(star.population as nat)) + " hab."@,
        "\n[Clic droit pour fermer]"@,
    ]
}

/// Every info menu has, in order: the name line, the type line, a distance line exactly when
/// the distance is not zero, a population line whatever the population (even none), and the
/// closing hint.
pub proof fn lemma_menu_has_every_line(star: StarNode)
    ensures
        menu_lines(star).len() == (if star.distance_centi_ly > 0 { 5int } else { 4int }),
        menu_lines(star)[0] == "★ "@ + star.name@,
        menu_lines(star)[1] == "Type: "@ + star.star_type@,
        star.distance_centi_ly > 0 ==> menu_lines(star)[2] == "Distance: "@ + hundredths(
            star.distance_centi_ly as nat,
        ) + " al"@,
        menu_lines(star)[menu_lines(star).len() - 2] == "Population: "@ + group_thousands(
            decimal(star.population as nat),
        ) + " hab."@,
        menu_lines(star)[menu_lines(star).len() - 1] == "\n[Clic droit pour fermer]"@,
{
}

/// The text of the info menu of `star`, one string per line.
pub fn info_menu_lines(star: &StarNode) -> (lines: Vec<String>)
    ensures
        lines@.len() == menu_lines(*star).len(),
        forall|i: int| 0 <= i < lines@.len() ==> #[trigger] lines@[i]@ == menu_lines(*star)[i],
        lines@.len() == (if star.distance_centi_ly > 0 { 5int } else { 4int }),
        lines@[0]@ == "★ "@ + star.name@,
        lines@[1]@ == "Type: "@ + star.star_type@,
        star.distance_centi_ly > 0 ==> lines@[2]@ == "Distance: "@ + hundredths(
            star.distance_centi_ly as nat,
        ) + " al"@,
        lines@[lines@.len() - 2]@ == "Population: "@ + group_thousands(decimal(star.population as nat))
            + " hab."@,
        lines@[lines@.len() - 1]@ == "\n[Clic droit pour fermer]"@,
{
    proof {
        lemma_menu_has_every_line(*star);
    }
    let mut lines: Vec<String> = Vec::new();
    let mut title = String::from_str("★ ");
    title.append(star.name.as_str());
    lines.push(title);
    let mut kind = String::from_str("Type: ");
    kind.append(star.star_type.as_str());
    lines.push(kind);
    if star.distance_centi_ly > 0 {
        let mut distance = String::from_str("Distance: ");
        let amount = format_hundredths(star.distance_centi_ly);
        distance.append(amount.as_str());
        distance.append(" al");
        lines.push(distance);
    }
    let mut population = String::from_str("Population: ");
    let grouped = format_number(star.population);
    population.append(grouped.as_str());
    population.append(" hab.");
    lines.push(population);
    lines.push(String::from_str("\n[Clic droit pour fermer]"));
    proof {
        let m = menu_lines(*star);
        if star.distance_centi_ly > 0 {
            assert(m.len() == 5);
        } else {
            assert(m.len() == 4);
        }
    }
    lines
}

/// `s` without its spaces.
pub open spec fn strip_spaces(s: Seq<char>) -> Seq<char> {
    s.filter(|c: char| c != ' ')
}

proof fn lemma_decimal_digits(n: nat)
    ensures
        decimal(n).len() >= 1,
        forall|i: int| 0 <= i < decimal(n).len() ==> #[trigger] decimal(n)[i] != ' ',
    decreases n,
{
    if n >= 10 {
        lemma_decimal_digits(n / 10);
        let d = decimal(n / 10);
        assert forall|i: int| 0 <= i < decimal(n).len() implies #[trigger] decimal(n)[i] != ' ' by {
            if i < d.len() {
                assert(decimal(n)[i] == d[i]);
            }
        }
    }
}

proof fn lemma_strip_without_spaces(s: Seq<char>)
    requires
        forall|i: int| 0 <= i < s.len() ==> #[trigger] s[i] != ' ',
    ensures
        strip_spaces(s) == s,
    decreases s.len(),
{
    reveal(Seq::filter);
    if s.len() > 0 {
        let t = s.drop_last();
        assert forall|i: int| 0 <= i < t.len() implies #[trigger] t[i] != ' ' by {
            assert(t[i] == s[i]);
        }
        lemma_strip_without_spaces(t);
        assert(s.last() != ' ');
        assert(t.push(s.last()) =~= s);
    }
}

proof fn lemma_strip_grouping(s: Seq<char>)
    requires
        forall|i: int| 0 <= i < s.len() ==> #[trigger] s[i] != ' ',
    ensures
        strip_spaces(group_thousands(s)) == s,
    decreases s.len(),
{
    if s.len() <= 3 {
        lemma_strip_without_spaces(s);
    } else {
        let head = s.take(s.len() - 3);
        let tail = s.skip(s.len() - 3);
        assert forall|i: int| 0 <= i < head.len() implies #[trigger] head[i] != ' ' by {
            assert(head[i] == s[i]);
        }
        assert forall|i: int| 0 <= i < tail.len() implies #[trigger] tail[i] != ' ' by {
            assert(tail[i] == s[i + s.len() - 3]);
        }
        lemma_strip_grouping(head);
        lemma_strip_without_spaces(tail);
        let p = |c: char| c != ' ';
        Seq::filter_distributes_over_add(group_thousands(head) + seq![' '], tail, p);
        Seq::filter_distributes_over_add(group_thousands(head), seq![' '], p);
        reveal(Seq::filter);
        assert(seq![' '].drop_last() =~= Seq::<char>::empty());
        assert(Seq::<char>::empty().filter(p) =~= Seq::<char>::empty());
        assert(seq![' '].filter(p) =~= Seq::<char>::empty());
        assert(head + tail =~= s);
    }
}

/// Grouping only adds spaces: taking the spaces out of `format_number(n)` gives back the
/// decimal notation of `n`.
pub proof fn lemma_format_number_strips_to_decimal(n: u64)
    ensures
        strip_spaces(group_thousands(decimal(n as nat))) == decimal(n as nat),
{
    lemma_decimal_digits(n as nat);
    lemma_strip_grouping(decimal(n as nat));
}

/// Grouping `k >= 1` digits adds one space per three digits beyond the first group:
/// `(k - 1) / 3` spaces.
pub proof fn lemma_grouping_length(s: Seq<char>)
    requires
        s.len() >= 1,
    ensures
        group_thousands(s).len() == s.len() + (s.len() - 1) / 3,
    decreases s.len(),
{
    if s.len() > 3 {
        lemma_grouping_length(s.take(s.len() - 3));
    }
}

proof fn lemma_decimal_short(n: nat)
    requires
        n < 1000,
    ensures
        decimal(n).len() <= 3,
    decreases n,
{
    if n >= 10 {
        lemma_decimal_short(n / 10);
        if n / 10 >= 10 {
            assert(decimal(n / 10).len() == decimal(n / 100).len() + 1);
            assert(n / 100 < 10);
        }
    }
}

/// Numbers below a thousand are written without any space.
pub proof fn lemma_small_numbers_ungrouped(n: u64)
    requires
        n < 1000,
    ensures
        group_thousands(decimal(n as nat)) == decimal(n as nat),
{
    lemma_decimal_short(n as nat);
}

} // verus!
