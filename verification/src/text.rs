//! Text layout primitives: padding, decimal numbers, repeated cells and the
//! line structure of a string, each with a specification over `Seq<char>`.
use vstd::prelude::*;

verus! {

/// `n` copies of the character `c`.
pub open spec fn repeat_char(c: char, n: nat) -> Seq<char> {
    Seq::new(n, |_i: int| c)
}

/// `s` padded with spaces on the right to at least `width` characters
/// (what `{:<width}` produces).
pub open spec fn pad_right(s: Seq<char>, width: nat) -> Seq<char> {
    if s.len() >= width {
        s
    } else {
        s + repeat_char(' ', (width - s.len()) as nat)
    }
}

/// `s` padded with spaces on the left to at least `width` characters
/// (what `{:>width}` produces).
pub open spec fn pad_left(s: Seq<char>, width: nat) -> Seq<char> {
    if s.len() >= width {
        s
    } else {
        repeat_char(' ', (width - s.len()) as nat) + s
    }
}

/// The character of a decimal digit.
pub open spec fn digit_char(d: nat) -> char {
    if d == 0 {
        '0'
    } else if d == 1 {
        '1'
    } else if d == 2 {
        '2'
    } else if d == 3 {
        '3'
    } else if d == 4 {
        '4'
    } else if d == 5 {
        '5'
    } else if d == 6 {
        '6'
    } else if d == 7 {
        '7'
    } else if d == 8 {
        '8'
    } else {
        '9'
    }
}

/// The decimal notation of `n`, without sign or leading zeros.
pub open spec fn decimal(n: nat) -> Seq<char>
    decreases n,
{
    if n < 10 {
        seq![digit_char(n)]
    } else {
        decimal(n / 10).push(digit_char(n % 10))
    }
}

/// The character views of a sequence of strings.
pub open spec fn views(v: Seq<String>) -> Seq<Seq<char>> {
    v.map_values(|s: String| s@)
}

/// The pieces of `s` between newline characters, in order; there is always one
/// more piece than there are newlines.
pub open spec fn newline_pieces(s: Seq<char>) -> Seq<Seq<char>>
    decreases s.len(),
{
    if s.len() == 0 {
        seq![Seq::<char>::empty()]
    } else {
        let p = newline_pieces(s.drop_last());
        if s.last() == '\n' {
            p.push(Seq::<char>::empty())
        } else {
            p.update(p.len() - 1, p.last().push(s.last()))
        }
    }
}

/// A line without the carriage return that ends it, if any.
pub open spec fn strip_cr(l: Seq<char>) -> Seq<char> {
    if l.len() > 0 && l.last() == '\r' {
        l.drop_last()
    } else {
        l
    }
}

/// The lines of `s` as `str::lines` gives them: the pieces between newlines,
/// each piece that a newline ends without its trailing carriage return, and
/// no empty last line after a final newline.
pub open spec fn lines(s: Seq<char>) -> Seq<Seq<char>> {
    let p = newline_pieces(s);
    let count: int = if p.last().len() == 0 { p.len() - 1 } else { p.len() as int };
    Seq::new(
        count as nat,
        |i: int|
            if i + 1 < p.len() {
                strip_cr(p[i])
            } else {
                p[i]
            },
    )
}

/// Each line written as `prefix`, the line, then `suffix`, one after another.
pub open spec fn framed(prefix: Seq<char>, ls: Seq<Seq<char>>, suffix: Seq<char>) -> Seq<char>
    decreases ls.len(),
{
    if ls.len() == 0 {
        Seq::<char>::empty()
    } else {
        framed(prefix, ls.drop_last(), suffix) + prefix + ls.last() + suffix
    }
}

/// The strings of `parts` with `sep` between each two of them (`[..].join(sep)`).
pub open spec fn joined(parts: Seq<Seq<char>>, sep: Seq<char>) -> Seq<char>
    decreases parts.len(),
{
    if parts.len() == 0 {
        Seq::<char>::empty()
    } else if parts.len() == 1 {
        parts[0]
    } else {
        joined(parts.drop_last(), sep) + sep + parts.last()
    }
}

/// Appends `n` copies of `c`, given as a one-character string, to `out`.
pub fn push_repeat(out: &mut String, c: &str, n: usize)
    requires
        c@.len() == 1,
    ensures
        final(out)@ == old(out)@ + repeat_char(c@[0], n as nat),
{
    let ghost start = out@;
    let mut i: usize = 0;
    while i < n
        invariant
            i <= n,
            c@.len() == 1,
            out@ == start + repeat_char(c@[0], i as nat),
        decreases n - i,
    {
        out.append(c);
        i = i + 1;
        assert(out@ =~= start + repeat_char(c@[0], i as nat));
    }
}

/// Appends `n` spaces to `out`.
pub fn push_spaces(out: &mut String, n: usize)
    ensures
        final(out)@ == old(out)@ + repeat_char(' ', n as nat),
{
    proof {
        reveal_strlit(" ");
    }
    push_repeat(out, " ", n);
}

/// Appends `s` padded on the right to `width` characters.
pub fn push_pad_right(out: &mut String, s: &str, width: usize)
    ensures
        final(out)@ == old(out)@ + pad_right(s@, width as nat),
{
    let len = s.unicode_len();
    out.append(s);
    if len < width {
        push_spaces(out, width - len);
    }
}

/// Appends `s` padded on the left to `width` characters.
pub fn push_pad_left(out: &mut String, s: &str, width: usize)
    ensures
        final(out)@ == old(out)@ + pad_left(s@, width as nat),
{
    let ghost start = out@;
    let len = s.unicode_len();
    if len < width {
        push_spaces(out, width - len);
    }
    out.append(s);
    assert(out@ =~= start + pad_left(s@, width as nat));
}

/// The one-character string of a decimal digit.
fn digit_str(d: u64) -> (r: &'static str)
    requires
        d < 10,
    ensures
        r@ == seq![digit_char(d as nat)],
{
    if d == 0 {
        proof { reveal_strlit("0"); }
        "0"
    } else if d == 1 {
        proof { reveal_strlit("1"); }
        "1"
    } else if d == 2 {
        proof { reveal_strlit("2"); }
        "2"
    } else if d == 3 {
        proof { reveal_strlit("3"); }
        "3"
    } else if d == 4 {
        proof { reveal_strlit("4"); }
        "4"
    } else if d == 5 {
        proof { reveal_strlit("5"); }
        "5"
    } else if d == 6 {
        proof { reveal_strlit("6"); }
        "6"
    } else if d == 7 {
        proof { reveal_strlit("7"); }
        "7"
    } else if d == 8 {
        proof { reveal_strlit("8"); }
        "8"
    } else {
        proof { reveal_strlit("9"); }
        "9"
    }
}

/// Appends the decimal notation of `n` (what `{}` writes for an unsigned integer).
pub fn push_decimal(out: &mut String, n: u64)
    ensures
        final(out)@ == old(out)@ + decimal(n as nat),
    decreases n,
{
    let ghost start = out@;
    if n < 10 {
        out.append(digit_str(n));
    } else {
        push_decimal(out, n / 10);
        out.append(digit_str(n % 10));
    }
    assert(out@ =~= start + decimal(n as nat));
}

/// The decimal notation of `n`.
pub fn decimal_string(n: u64) -> (r: String)
    ensures
        r@ == decimal(n as nat),
{
    let mut r = String::new();
    push_decimal(&mut r, n);
    assert(r@ =~= decimal(n as nat));
    r
}

/// Appends `decimal(n)` padded on the left to `width` characters.
pub fn push_decimal_pad_left(out: &mut String, n: u64, width: usize)
    ensures
        final(out)@ == old(out)@ + pad_left(decimal(n as nat), width as nat),
{
    let d = decimal_string(n);
    push_pad_left(out, d.as_str(), width);
}

/// Appends `decimal(n)` padded on the right to `width` characters.
pub fn push_decimal_pad_right(out: &mut String, n: u64, width: usize)
    ensures
        final(out)@ == old(out)@ + pad_right(decimal(n as nat), width as nat),
{
    let d = decimal_string(n);
    push_pad_right(out, d.as_str(), width);
}

/// `piece` without its last character when that character is a carriage return.
fn strip_cr_str<'a>(s: &'a str, from: usize, to: usize) -> (r: &'a str)
    requires
        from <= to <= s@.len(),
    ensures
        r@ == strip_cr(s@.subrange(from as int, to as int)),
{
    if to > from && s.get_char(to - 1) == '\r' {
        let r = s.substring_char(from, to - 1);
        assert(r@ =~= s@.subrange(from as int, to as int).drop_last());
        r
    } else {
        s.substring_char(from, to)
    }
}

/// The lines of `s`, as `str::lines` splits them.
pub fn split_lines(s: &str) -> (res: Vec<String>)
    ensures
        views(res@) == lines(s@),
{
    let n = s.unicode_len();
    let mut res: Vec<String> = Vec::new();
    let mut start: usize = 0;
    let mut i: usize = 0;
    let ghost mut done: Seq<Seq<char>> = Seq::empty();
    assert(s@.take(0) =~= Seq::<char>::empty());
    assert(s@.subrange(0, 0) =~= Seq::<char>::empty());
    while i < n
        invariant
            n == s@.len(),
            start <= i <= n,
            newline_pieces(s@.take(i as int)) == done.push(s@.subrange(start as int, i as int)),
            views(res@) == done.map_values(|l: Seq<char>| strip_cr(l)),
        decreases n - i,
    {
        let c = s.get_char(i);
        let ghost pre = s@.take(i as int);
        assert(s@.take(i + 1).drop_last() =~= pre);
        assert(s@.take(i + 1).last() == c);
        if c == '\n' {
            let piece = strip_cr_str(s, start, i);
            let ghost old_res = res@;
            let line = String::from_str(piece);
            res.push(line);
            proof {
                assert(views(res@) =~= views(old_res).push(line@));
                done = done.push(s@.subrange(start as int, i as int));
                assert(views(res@) =~= done.map_values(|l: Seq<char>| strip_cr(l)));
                assert(s@.subrange(i + 1, i + 1) =~= Seq::<char>::empty());
            }
            start = i + 1;
        } else {
            assert(s@.subrange(start as int, i + 1) =~= s@.subrange(start as int, i as int).push(c));
        }
        i = i + 1;
    }
    assert(s@.take(n as int) =~= s@);
    let ghost p = newline_pieces(s@);
    if start < n {
        let piece = s.substring_char(start, n);
        let ghost old_res = res@;
        let line = String::from_str(piece);
        res.push(line);
        assert(views(res@) =~= views(old_res).push(line@));
        assert(p == done.push(s@.subrange(start as int, n as int)));
        assert(p.last().len() > 0);
        assert(views(res@) =~= lines(s@));
    } else {
        assert(views(res@) =~= lines(s@));
    }
    res
}

/// Appends each of `ls` framed by `prefix` and `suffix`.
pub fn push_framed(out: &mut String, prefix: &str, ls: &Vec<String>, suffix: &str)
    ensures
        final(out)@ == old(out)@ + framed(prefix@, views(ls@), suffix@),
{
    let ghost start = out@;
    let mut i: usize = 0;
    while i < ls.len()
        invariant
            i <= ls.len(),
            out@ == start + framed(prefix@, views(ls@).take(i as int), suffix@),
        decreases ls.len() - i,
    {
        out.append(prefix);
        out.append(ls[i].as_str());
        out.append(suffix);
        assert(views(ls@).take(i + 1).drop_last() =~= views(ls@).take(i as int));
        i = i + 1;
        assert(out@ =~= start + framed(prefix@, views(ls@).take(i as int), suffix@));
    }
    assert(views(ls@).take(ls.len() as int) =~= views(ls@));
}

/// Appends the strings of `parts` separated by `sep`.
pub fn push_joined(out: &mut String, parts: &Vec<String>, sep: &str)
    ensures
        final(out)@ == old(out)@ + joined(views(parts@), sep@),
{
    let ghost start = out@;
    let mut i: usize = 0;
    while i < parts.len()
        invariant
            i <= parts.len(),
            out@ == start + joined(views(parts@).take(i as int), sep@),
        decreases parts.len() - i,
    {
        if i > 0 {
            out.append(sep);
        }
        out.append(parts[i].as_str());
        assert(views(parts@).take(i + 1).drop_last() =~= views(parts@).take(i as int));
        i = i + 1;
        assert(out@ =~= start + joined(views(parts@).take(i as int), sep@));
    }
    assert(views(parts@).take(parts.len() as int) =~= views(parts@));
}

/// The row written where a section of a panel has no entries.
pub open spec fn none_row() -> Seq<char> {
    "|  (none)                                |\n"@
}

/// A rendered panel embedded in an enclosing one: each of its lines behind
/// `"|  "` and followed by a newline.
pub open spec fn embedded_panel(panel: Seq<char>) -> Seq<char> {
    framed("|  "@, lines(panel), "\n"@)
}

/// The panels embedded one after another.
pub open spec fn embedded_panels(panels: Seq<Seq<char>>) -> Seq<char>
    decreases panels.len(),
{
    if panels.len() == 0 {
        Seq::<char>::empty()
    } else {
        embedded_panels(panels.drop_last()) + embedded_panel(panels.last())
    }
}

/// A section of embedded panels, or the `(none)` row when there is none.
pub open spec fn panel_section(panels: Seq<Seq<char>>) -> Seq<char> {
    if panels.len() == 0 {
        none_row()
    } else {
        embedded_panels(panels)
    }
}

/// A section of one-line rows, each padded to 38 characters inside the frame,
/// or the `(none)` row when there is none.
pub open spec fn row_section(rows: Seq<Seq<char>>) -> Seq<char> {
    if rows.len() == 0 {
        none_row()
    } else {
        framed("|  "@, rows.map_values(|r: Seq<char>| pad_right(r, 38)), "|\n"@)
    }
}

/// Appends `panel` embedded in an enclosing panel.
pub fn push_embedded_panel(out: &mut String, panel: &str)
    ensures
        final(out)@ == old(out)@ + embedded_panel(panel@),
{
    let ls = split_lines(panel);
    push_framed(out, "|  ", &ls, "\n");
}

/// Appends the section made of `panels`.
pub fn push_panel_section(out: &mut String, panels: &Vec<String>)
    ensures
        final(out)@ == old(out)@ + panel_section(views(panels@)),
{
    let ghost start = out@;
    let mut i: usize = 0;
    while i < panels.len()
        invariant
            i <= panels.len(),
            out@ == start + embedded_panels(views(panels@).take(i as int)),
        decreases panels.len() - i,
    {
        push_embedded_panel(out, panels[i].as_str());
        assert(views(panels@).take(i + 1).drop_last() =~= views(panels@).take(i as int));
        i = i + 1;
        assert(out@ =~= start + embedded_panels(views(panels@).take(i as int)));
    }
    assert(views(panels@).take(panels.len() as int) =~= views(panels@));
    if panels.len() == 0 {
        out.append("|  (none)                                |\n");
        assert(out@ =~= start + panel_section(views(panels@)));
    }
}

/// Appends the section made of the one-line `rows`.
pub fn push_row_section(out: &mut String, rows: &Vec<String>)
    ensures
        final(out)@ == old(out)@ + row_section(views(rows@)),
{
    let ghost start = out@;
    let ghost padded = views(rows@).map_values(|r: Seq<char>| pad_right(r, 38));
    let mut i: usize = 0;
    while i < rows.len()
        invariant
            i <= rows.len(),
            padded == views(rows@).map_values(|r: Seq<char>| pad_right(r, 38)),
            out@ == start + framed("|  "@, padded.take(i as int), "|\n"@),
        decreases rows.len() - i,
    {
        out.append("|  ");
        push_pad_right(out, rows[i].as_str(), 38);
        out.append("|\n");
        assert(padded.take(i + 1).drop_last() =~= padded.take(i as int));
        i = i + 1;
        assert(out@ =~= start + framed("|  "@, padded.take(i as int), "|\n"@));
    }
    assert(padded.take(rows.len() as int) =~= padded);
    if rows.len() == 0 {
        out.append("|  (none)                                |\n");
        assert(out@ =~= start + row_section(views(rows@)));
    }
}

} // verus!
