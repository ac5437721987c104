use vstd::prelude::*;
use crate::text::{chars_to_string, hex2, push_hex2};

verus! {

/// A byte sequence rendered for a log: letters and digits as themselves,
/// other bytes as two upper-case hexadecimal digits, each element followed
/// by a space.
pub struct ByteFormat<'a>(pub &'a [u8]);

/// Whether a byte is an ASCII letter or digit.
pub open spec fn is_alnum(b: u8) -> bool {
    (48 <= b <= 57) || (65 <= b <= 90) || (97 <= b <= 122)
}

/// The escape sequence that turns the following text red.
pub open spec fn red_on() -> Seq<char> {
    seq!['\x1b', '[', '3', '1', 'm']
}

/// The escape sequence that ends coloured text.
pub open spec fn colour_off() -> Seq<char> {
    seq!['\x1b', '[', 'm']
}

/// The rendering of one byte; `highlight` colours letters and digits red.
pub open spec fn cell(b: u8, highlight: bool) -> Seq<char> {
    if is_alnum(b) {
        if highlight {
            red_on() + seq![' ', b as char] + colour_off() + seq![' ']
        } else {
            seq![' ', b as char, ' ']
        }
    } else {
        hex2(b) + seq![' ']
    }
}

/// The element that stands in for the last one shown when some are cut off.
pub open spec fn ellipsis() -> Seq<char> {
    seq!['.', '.', '.']
}

/// How many elements are shown under an optional precision.
pub open spec fn shown_len(n: nat, precision: Option<usize>) -> nat {
    match precision {
        Some(p) => if p < n { p as nat } else { n },
        None => n,
    }
}

/// The `k`-th element shown: the byte's cell, or the ellipsis in place of the
/// last element shown when the sequence is cut short.
pub open spec fn element(bytes: Seq<u8>, precision: Option<usize>, highlight: bool, k: int) -> Seq<
    char,
> {
    let m = shown_len(bytes.len(), precision);
    if m < bytes.len() && k == m - 1 {
        ellipsis()
    } else {
        cell(bytes[k], highlight)
    }
}

/// What follows the `k`-th of `m` elements: a line break at the end of each
/// row of `width` elements and after the last one; nothing without a width.
pub open spec fn separator(m: nat, width: Option<usize>, k: int) -> Seq<char> {
    match width {
        Some(w) => if (k + 1) % (w as int) == 0 || k + 1 == m { seq!['\n'] } else { seq![] },
        None => seq![],
    }
}

/// The first `n` shown elements, each with what follows it.
pub open spec fn rendered_prefix(
    bytes: Seq<u8>,
    width: Option<usize>,
    precision: Option<usize>,
    highlight: bool,
    n: nat,
) -> Seq<char>
    decreases n,
{
    if n == 0 {
        seq![]
    } else {
        rendered_prefix(bytes, width, precision, highlight, (n - 1) as nat) + element(
            bytes,
            precision,
            highlight,
            n - 1,
        ) + separator(shown_len(bytes.len(), precision), width, n - 1)
    }
}

/// The whole rendering of `bytes`.
pub open spec fn rendered(
    bytes: Seq<u8>,
    width: Option<usize>,
    precision: Option<usize>,
    highlight: bool,
) -> Seq<char> {
    rendered_prefix(bytes, width, precision, highlight, shown_len(bytes.len(), precision))
}

/// Whether a width, if any, can split elements into rows.
pub open spec fn width_ok(width: Option<usize>) -> bool {
    match width {
        Some(w) => w > 0,
        None => true,
    }
}

fn is_alnum_byte(b: u8) -> (r: bool)
    ensures
        r == is_alnum(b),
{
    (48 <= b && b <= 57) || (65 <= b && b <= 90) || (97 <= b && b <= 122)
}

fn push_cell(out: &mut Vec<char>, b: u8, highlight: bool)
    ensures
        final(out)@ == old(out)@ + cell(b, highlight),
{
    if is_alnum_byte(b) {
        if highlight {
            out.push('\x1b');
            out.push('[');
            out.push('3');
            out.push('1');
            out.push('m');
            out.push(' ');
            out.push(b as char);
            out.push('\x1b');
            out.push('[');
            out.push('m');
            out.push(' ');
        } else {
            out.push(' ');
            out.push(b as char);
            out.push(' ');
        }
    } else {
        push_hex2(out, b);
        out.push(' ');
    }
    assert(final(out)@ =~= old(out)@ + cell(b, highlight));
}

impl<'a> ByteFormat<'a> {
    /// Renders the bytes. With a precision only that many elements are shown,
    /// the last of them replaced by `...` when some are left out. With a width
    /// the elements are split into rows of that many, each ending in a line
    /// break.
    pub fn render(&self, width: Option<usize>, precision: Option<usize>, highlight: bool) -> (r:
        String)
        requires
            width_ok(width),
        ensures
            r@ == rendered(self.0@, width, precision, highlight),
    {
        let bytes = self.0;
        let n = bytes.len();
        let m: usize = match precision {
            Some(p) => if p < n { p } else { n },
            None => n,
        };
        let mut out: Vec<char> = Vec::new();
        let mut k: usize = 0;
        while k < m
            invariant
                m == shown_len(bytes@.len(), precision),
                n == bytes@.len(),
                m <= n,
                k <= m,
                width_ok(width),
                out@ == rendered_prefix(bytes@, width, precision, highlight, k as nat),
            decreases m - k,
        {
            if m < n && k + 1 == m {
                out.push('.');
                out.push('.');
                out.push('.');
            } else {
                push_cell(&mut out, bytes[k], highlight);
            }
            match width {
                Some(w) => {
                    if (k + 1) % w == 0 || k + 1 == m {
                        out.push('\n');
                    }
                },
                None => {},
            }
            k = k + 1;
            assert(out@ =~= rendered_prefix(bytes@, width, precision, highlight, k as nat));
        }
        chars_to_string(&out)
    }

    /// The plain rendering: every element on one line, nothing cut off.
    pub fn to_string(&self) -> (r: String)
        ensures
            r@ == rendered(self.0@, None, None, false),
    {
        self.render(None, None, false)
    }
}

/// The cell of every byte, in order.
pub open spec fn cells(bytes: Seq<u8>, highlight: bool) -> Seq<Seq<char>> {
    Seq::new(bytes.len(), |i: int| cell(bytes[i], highlight))
}

/// The pieces joined end to end.
pub open spec fn concat(parts: Seq<Seq<char>>) -> Seq<char>
    decreases parts.len(),
{
    if parts.len() == 0 {
        seq![]
    } else {
        concat(parts.drop_last()) + parts.last()
    }
}

/// The pieces cut into rows of `w`, the last possibly shorter, each row
/// joined and followed by a line break.
pub open spec fn rows(parts: Seq<Seq<char>>, w: nat) -> Seq<char>
    decreases parts.len(),
{
    if parts.len() == 0 || w == 0 {
        seq![]
    } else if parts.len() <= w {
        concat(parts) + seq!['\n']
    } else {
        concat(parts.take(w as int)) + seq!['\n'] + rows(parts.skip(w as int), w)
    }
}

proof fn lemma_within_row(bytes: Seq<u8>, w: usize, highlight: bool, q: nat, i: nat)
    requires
        w > 0,
        q * w <= i,
        i < q * w + w,
        i < bytes.len(),
    ensures
        rendered_prefix(bytes, Some(w), None, highlight, (i + 1) as nat) == rendered_prefix(
            bytes,
            Some(w),
            None,
            highlight,
            (q * w) as nat,
        ) + concat(cells(bytes, highlight).subrange((q * w) as int, (i + 1) as int)) + (if i + 1 == q * w + w
            || i + 1 == bytes.len() {
            seq!['\n']
        } else {
            seq![]
        }),
    decreases i - q * w,
{
    let k = (q * w) as nat;
    let e = cells(bytes, highlight);
    let m = bytes.len();
    assert(e.subrange(k as int, (i + 1) as int).drop_last() =~= e.subrange(k as int, i as int));
    assert(e.subrange(k as int, (i + 1) as int).last() == e[i as int]);
    if i + 1 < k + w {
        vstd::arithmetic::div_mod::lemma_fundamental_div_mod_converse(
            (i + 1) as int,
            w as int,
            q as int,
            (i + 1 - k) as int,
        );
    } else {
        assert(q * w + w == (q + 1) * w) by (nonlinear_arith);
        vstd::arithmetic::div_mod::lemma_fundamental_div_mod_converse(
            (i + 1) as int,
            w as int,
            (q + 1) as int,
            0,
        );
    }
    if i == k {
        assert(e.subrange(k as int, k as int) =~= Seq::<Seq<char>>::empty());
        assert(concat(e.subrange(k as int, k as int)) =~= Seq::<char>::empty());
        assert(concat(e.subrange(k as int, (i + 1) as int)) =~= e[i as int]);
        assert(element(bytes, None, highlight, i as int) == e[i as int]);
        assert(rendered_prefix(bytes, Some(w), None, highlight, (i + 1) as nat) =~= rendered_prefix(
            bytes,
            Some(w),
            None,
            highlight,
            k,
        ) + concat(e.subrange(k as int, (i + 1) as int)) + separator(m, Some(w), i as int));
    } else {
        lemma_within_row(bytes, w, highlight, q, (i - 1) as nat);
        assert(rendered_prefix(bytes, Some(w), None, highlight, (i + 1) as nat) =~= rendered_prefix(
            bytes,
            Some(w),
            None,
            highlight,
            k,
        ) + concat(e.subrange(k as int, (i + 1) as int)) + separator(m, Some(w), i as int));
    }
}

proof fn lemma_rows_from(bytes: Seq<u8>, w: usize, highlight: bool, q: nat)
    requires
        w > 0,
        q * w <= bytes.len(),
    ensures
        rendered_prefix(bytes, Some(w), None, highlight, bytes.len()) == rendered_prefix(
            bytes,
            Some(w),
            None,
            highlight,
            (q * w) as nat,
        ) + rows(cells(bytes, highlight).subrange((q * w) as int, bytes.len() as int), w as nat),
    decreases bytes.len() - q * w,
{
    let k = (q * w) as nat;
    let m = bytes.len();
    let e = cells(bytes, highlight);
    let rest = e.subrange(k as int, m as int);
    if k == m {
        assert(rest.len() == 0);
        assert(rendered_prefix(bytes, Some(w), None, highlight, k) + rows(rest, w as nat)
            =~= rendered_prefix(bytes, Some(w), None, highlight, k));
    } else if k + w >= m {
        lemma_within_row(bytes, w, highlight, q, (m - 1) as nat);
        assert(rest =~= e.subrange(k as int, m as int));
    } else {
        let j = k + w;
        assert(q * w + w == (q + 1) * w) by (nonlinear_arith);
        lemma_within_row(bytes, w, highlight, q, (j - 1) as nat);
        lemma_rows_from(bytes, w, highlight, q + 1);
        assert(rest.take(w as int) =~= e.subrange(k as int, j as int));
        assert(rest.skip(w as int) =~= e.subrange(j as int, m as int));
        assert(rendered_prefix(bytes, Some(w), None, highlight, m) =~= rendered_prefix(
            bytes,
            Some(w),
            None,
            highlight,
            k,
        ) + rows(rest, w as nat));
    }
}

/// With a width and no precision, the rendering is the cells cut into rows
/// of that many, in order, the last row possibly shorter, each row followed
/// by a line break; nothing at all for no bytes.
pub proof fn lemma_rendered_rows(bytes: Seq<u8>, w: usize, highlight: bool)
    requires
        w > 0,
    ensures
        rendered(bytes, Some(w), None, highlight) == rows(cells(bytes, highlight), w as nat),
        bytes.len() == 0 ==> rendered(bytes, Some(w), None, highlight) == Seq::<char>::empty(),
{
    lemma_rows_from(bytes, w, highlight, 0);
    assert(cells(bytes, highlight).subrange(0, bytes.len() as int) =~= cells(bytes, highlight));
    assert(rendered_prefix(bytes, Some(w), None, highlight, 0) + rows(
        cells(bytes, highlight),
        w as nat,
    ) =~= rows(cells(bytes, highlight), w as nat));
}

} // verus!
