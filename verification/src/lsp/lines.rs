//! Positions in a text, counted as JavaScript counts: in UTF-16 code units.
use vstd::prelude::*;
use vstd::utf8::encode_utf8;
use crate::text::chars_of;

verus! {

/// A place in a text: a line and a UTF-16 offset into it, both from zero.
#[derive(Clone, Copy, PartialEq, Eq, Structural, Debug)]
pub struct Position {
    pub line: u32,
    pub character: u32,
}

/// The text between two places.
#[derive(Clone, Copy, PartialEq, Eq, Structural, Debug)]
pub struct Range {
    pub start: Position,
    pub end: Position,
}

/// The range at the very start of a text.
pub open spec fn empty_range() -> Range {
    Range {
        start: Position { line: 0, character: 0 },
        end: Position { line: 0, character: 0 },
    }
}

/// How many UTF-16 code units a character takes.
pub open spec fn utf16_width(c: char) -> nat {
    if c as u32 >= 0x10000 {
        2
    } else {
        1
    }
}

/// How many UTF-16 code units a text takes.
pub open spec fn utf16_len(text: Seq<char>) -> nat
    decreases text.len(),
{
    if text.len() == 0 {
        0
    } else {
        utf16_len(text.drop_last()) + utf16_width(text.last())
    }
}

/// The UTF-16 offsets at which the lines of a text start: zero, and behind each
/// line feed.
pub open spec fn line_starts(text: Seq<char>) -> Seq<nat>
    decreases text.len(),
{
    if text.len() == 0 {
        seq![0]
    } else if text.last() == '\n' {
        line_starts(text.drop_last()).push(utf16_len(text))
    } else {
        line_starts(text.drop_last())
    }
}

/// The starts of the lines of a text that is not too long, as they are held.
pub open spec fn starts_of(text: Seq<char>) -> Seq<u32> {
    Seq::new(line_starts(text).len(), |i: int| line_starts(text)[i] as u32)
}

/// Every start of a text is at most as long as the text.
pub proof fn lemma_utf16_len_prefix(text: Seq<char>, n: int)
    requires
        0 <= n <= text.len(),
    ensures
        utf16_len(text.take(n)) <= utf16_len(text),
        n <= utf16_len(text.take(n)),
    decreases text.len(),
{
    if n == text.len() {
        assert(text.take(n) =~= text);
        if n > 0 {
            lemma_utf16_len_prefix(text.drop_last(), n - 1);
            assert(text.drop_last().take(n - 1) =~= text.drop_last());
        }
    } else {
        assert(text.take(n) =~= text.drop_last().take(n));
        lemma_utf16_len_prefix(text.drop_last(), n);
    }
}

/// The length of a text is that of its parts together.
pub proof fn lemma_utf16_len_of_parts(a: Seq<char>, b: Seq<char>)
    ensures
        utf16_len(a + b) == utf16_len(a) + utf16_len(b),
    decreases b.len(),
{
    if b.len() == 0 {
        assert(a + b =~= a);
    } else {
        assert((a + b).drop_last() =~= a + b.drop_last());
        lemma_utf16_len_of_parts(a, b.drop_last());
    }
}

/// A text's length without and with a character in front.
proof fn lemma_utf16_len_first(text: Seq<char>)
    requires
        text.len() > 0,
    ensures
        utf16_len(text) == utf16_width(text[0]) + utf16_len(text.drop_first()),
    decreases text.len(),
{
    if text.len() == 1 {
        assert(text.drop_last() =~= Seq::empty());
        assert(text.drop_first() =~= Seq::empty());
    } else {
        lemma_utf16_len_first(text.drop_last());
        assert(text.drop_last().drop_first() =~= text.drop_first().drop_last());
    }
}

/// A text takes no more UTF-16 code units than UTF-8 bytes.
proof fn lemma_utf16_fits_utf8(text: Seq<char>)
    ensures
        utf16_len(text) <= encode_utf8(text).len(),
    decreases text.len(),
{
    if text.len() > 0 {
        lemma_utf16_len_first(text);
        lemma_utf16_fits_utf8(text.drop_first());
    }
}

/// How many UTF-16 code units a text takes.
pub fn utf16_length(text: &str) -> (r: usize)
    ensures
        r == utf16_len(text@),
{
    let bytes: usize = text.as_bytes().len();
    proof {
        lemma_utf16_fits_utf8(text@);
        assert(bytes == encode_utf8(text@).len());
    }
    let chars: Vec<char> = chars_of(text);
    let mut n: usize = 0;
    let mut i: usize = 0;
    assert(text@.take(0) =~= Seq::empty());
    while i < chars.len()
        invariant
            i <= chars.len(),
            chars@ == text@,
            n == utf16_len(text@.take(i as int)),
            utf16_len(text@) <= usize::MAX,
        decreases chars.len() - i,
    {
        let c: char = chars[i];
        proof {
            assert(text@.take(i + 1).drop_last() =~= text@.take(i as int));
            lemma_utf16_len_prefix(text@, i + 1);
        }
        n = n + (if c as u32 >= 0x10000 { 2 } else { 1 });
        i = i + 1;
    }
    assert(text@.take(i as int) =~= text@);
    n
}

/// How many characters of a text start before a UTF-16 offset.
pub open spec fn chars_before(text: Seq<char>, offset: nat) -> nat
    decreases text.len(),
{
    if text.len() == 0 {
        0
    } else if utf16_len(text.drop_last()) < offset {
        text.len()
    } else {
        chars_before(text.drop_last(), offset)
    }
}

/// No more characters start before an offset than there are, and no fewer than
/// before an earlier offset.
pub proof fn lemma_chars_before(text: Seq<char>, a: nat, b: nat)
    requires
        a <= b,
    ensures
        chars_before(text, a) <= chars_before(text, b) <= text.len(),
    decreases text.len(),
{
    if text.len() > 0 {
        lemma_chars_before(text.drop_last(), a, b);
    }
}

/// The characters of a text that start in a stretch of UTF-16 offsets; none where
/// the stretch ends before it starts.
pub open spec fn utf16_slice(text: Seq<char>, start: nat, end: nat) -> Seq<char> {
    if end < start {
        Seq::empty()
    } else {
        text.subrange(chars_before(text, start) as int, chars_before(text, end) as int)
    }
}

/// How many characters start before a UTF-16 offset.
fn count_chars_before(chars: &Vec<char>, offset: usize) -> (r: usize)
    requires
        utf16_len(chars@) <= usize::MAX,
    ensures
        r == chars_before(chars@, offset as nat),
{
    let mut i: usize = 0;
    let mut n: usize = 0;
    assert(chars@.take(0) =~= Seq::empty());
    while i < chars.len() && n < offset
        invariant
            i <= chars@.len(),
            n == utf16_len(chars@.take(i as int)),
            i == chars_before(chars@.take(i as int), offset as nat),
            utf16_len(chars@) <= usize::MAX,
        decreases chars.len() - i,
    {
        proof {
            assert(chars@.take(i + 1).drop_last() =~= chars@.take(i as int));
            lemma_utf16_len_prefix(chars@, i + 1);
        }
        let c: char = chars[i];
        n = n + (if c as u32 >= 0x10000 { 2 } else { 1 });
        i = i + 1;
    }
    proof {
        if i == chars@.len() {
            assert(chars@.take(i as int) =~= chars@);
        } else {
            lemma_chars_before_at(chars@, offset as nat, i as int);
        }
    }
    i
}

/// Characters behind one that starts no earlier than the offset do not count.
proof fn lemma_chars_before_at(text: Seq<char>, offset: nat, i: int)
    requires
        0 <= i <= text.len(),
        utf16_len(text.take(i)) >= offset,
    ensures
        chars_before(text, offset) == chars_before(text.take(i), offset),
    decreases text.len(),
{
    if i == text.len() {
        assert(text.take(i) =~= text);
    } else {
        lemma_utf16_len_prefix(text.drop_last(), i);
        assert(text.drop_last().take(i) =~= text.take(i));
        lemma_chars_before_at(text.drop_last(), offset, i);
    }
}

/// The characters of a text that start in a stretch of UTF-16 offsets.
pub fn slice(text: &str, start: usize, end: usize) -> (r: String)
    ensures
        r@ == utf16_slice(text@, start as nat, end as nat),
{
    if end < start {
        return String::new();
    }
    let bytes: usize = text.as_bytes().len();
    proof {
        lemma_utf16_fits_utf8(text@);
        assert(bytes == encode_utf8(text@).len());
        lemma_chars_before(text@, start as nat, end as nat);
    }
    let chars: Vec<char> = chars_of(text);
    let from: usize = count_chars_before(&chars, start);
    let to: usize = count_chars_before(&chars, end);
    text.substring_char(from, to).to_owned()
}

/// Adjoining slices put together are the slice of the whole stretch.
pub proof fn law_adjoining_slices(text: Seq<char>, a: nat, b: nat, c: nat)
    requires
        a <= b <= c,
    ensures
        utf16_slice(text, a, b) + utf16_slice(text, b, c) == utf16_slice(text, a, c),
{
    lemma_chars_before(text, a, b);
    lemma_chars_before(text, b, c);
    assert(utf16_slice(text, a, b) + utf16_slice(text, b, c) =~= utf16_slice(text, a, c));
}

/// The slice from the start to the length of a text is the text.
pub proof fn law_whole_slice(text: Seq<char>)
    ensures
        utf16_slice(text, 0, utf16_len(text)) == text,
{
    lemma_whole(text);
    lemma_none_before(text);
    assert(utf16_slice(text, 0, utf16_len(text)) =~= text);
}

/// Every character starts before the end.
proof fn lemma_whole(text: Seq<char>)
    ensures
        chars_before(text, utf16_len(text)) == text.len(),
{
}

/// No character starts before the start.
proof fn lemma_none_before(text: Seq<char>)
    ensures
        chars_before(text, 0) == 0,
    decreases text.len(),
{
    if text.len() > 0 {
        lemma_none_before(text.drop_last());
    }
}

/// The offsets at which the lines of a text start.
#[derive(Debug)]
pub struct LineIndex {
    starts: Vec<u32>,
}

impl View for LineIndex {
    type V = Seq<u32>;

    closed spec fn view(&self) -> Seq<u32> {
        self.starts@
    }
}

/// The offsets begin at zero and grow.
pub open spec fn increasing(starts: Seq<u32>) -> bool {
    &&& starts.len() > 0
    &&& starts[0] == 0
    &&& forall|i: int, j: int| 0 <= i < j < starts.len() ==> starts[i] < starts[j]
}

/// How many of the offsets are at most `offset`.
pub open spec fn starts_up_to(starts: Seq<u32>, offset: u32) -> nat
    decreases starts.len(),
{
    if starts.len() == 0 {
        0
    } else {
        starts_up_to(starts.drop_last(), offset) + (if starts.last() <= offset {
            1nat
        } else {
            0
        })
    }
}

/// The place of an offset: in the last line that starts no later, as far behind
/// that start as the offset is.
pub open spec fn position(starts: Seq<u32>, offset: u32) -> Position {
    let line = starts_up_to(starts, offset) - 1;
    Position { line: line as u32, character: (offset - starts[line]) as u32 }
}

/// Where the offsets grow, those up to `offset` come first.
proof fn lemma_starts_up_to(starts: Seq<u32>, offset: u32, n: int)
    requires
        0 <= n <= starts.len(),
        forall|i: int| 0 <= i < n ==> starts[i] <= offset,
        forall|i: int| n <= i < starts.len() ==> starts[i] > offset,
    ensures
        starts_up_to(starts, offset) == n,
    decreases starts.len(),
{
    if starts.len() > 0 {
        if n == starts.len() {
            lemma_starts_up_to(starts.drop_last(), offset, n - 1);
        } else {
            lemma_starts_up_to(starts.drop_last(), offset, n);
        }
    }
}

/// Growing offsets are at least as large as their index.
proof fn lemma_increasing_at_least(starts: Seq<u32>, i: int)
    requires
        increasing(starts),
        0 <= i < starts.len(),
    ensures
        starts[i] >= i,
    decreases i,
{
    if i > 0 {
        lemma_increasing_at_least(starts, i - 1);
    }
}

/// The starts of the lines grow and lie within the text.
pub proof fn lemma_line_starts_increase(text: Seq<char>)
    ensures
        line_starts(text).len() > 0,
        line_starts(text)[0] == 0,
        line_starts(text).last() <= utf16_len(text),
        forall|i: int, j: int|
            0 <= i < j < line_starts(text).len() ==> line_starts(text)[i] < line_starts(text)[j],
    decreases text.len(),
{
    if text.len() > 0 {
        let shorter = text.drop_last();
        lemma_line_starts_increase(shorter);
        if text.last() == '\n' {
            let before = line_starts(shorter);
            assert forall|i: int, j: int|
                0 <= i < j < line_starts(text).len() implies line_starts(text)[i] < line_starts(
                text,
            )[j] by {
                if j == before.len() {
                    if i < before.len() - 1 {
                        assert(before[i] < before[before.len() - 1]);
                    }
                }
            }
        }
    }
}

impl LineIndex {
    #[verifier::type_invariant]
    spec fn valid(&self) -> bool {
        increasing(self.starts@)
    }

    /// Finds the starts of the lines of a text.
    pub fn new(text: &str) -> (r: LineIndex)
        requires
            utf16_len(text@) <= u32::MAX,
        ensures
            r@ == starts_of(text@),
            increasing(r@),
    {
        let chars: Vec<char> = chars_of(text);
        let mut starts: Vec<u32> = Vec::new();
        starts.push(0);
        let mut n: u32 = 0;
        let mut i: usize = 0;
        assert(text@.take(0) =~= Seq::empty());
        assert(starts@.map_values(|s: u32| s as nat) =~= seq![0nat]);
        while i < chars.len()
            invariant
                i <= chars.len(),
                chars@ == text@,
                n == utf16_len(text@.take(i as int)),
                utf16_len(text@) <= u32::MAX,
                starts@.map_values(|s: u32| s as nat) == line_starts(text@.take(i as int)),
            decreases chars.len() - i,
        {
            let c: char = chars[i];
            proof {
                assert(text@.take(i + 1).drop_last() =~= text@.take(i as int));
                lemma_utf16_len_prefix(text@, i + 1);
            }
            n = n + (if c as u32 >= 0x10000 { 2 } else { 1 });
            i = i + 1;
            let ghost before = starts@;
            if c == '\n' {
                starts.push(n);
                assert(starts@.map_values(|s: u32| s as nat) =~= before.map_values(
                    |s: u32| s as nat,
                ).push(n as nat));
            }
        }
        proof {
            assert(text@.take(i as int) =~= text@);
            lemma_line_starts_increase(text@);
            let mapped = starts@.map_values(|s: u32| s as nat);
            assert forall|i: int, j: int| 0 <= i < j < starts@.len() implies starts@[i]
                < starts@[j] by {
                assert(mapped[i] < mapped[j]);
            }
            assert(mapped[0] == starts@[0]);
            assert forall|i: int| 0 <= i < starts@.len() implies starts@[i] == #[trigger] starts_of(
                text@,
            )[i] by {
                assert(mapped[i] == starts@[i]);
            }
            assert(mapped.len() == starts@.len());
            assert(starts@ =~= starts_of(text@));
        }
        LineIndex { starts }
    }

    /// The place of a UTF-16 offset.
    pub fn position_tsc(&self, offset: u32) -> (r: Position)
        ensures
            r == position(self@, offset),
            increasing(self@),
    {
        proof {
            use_type_invariant(self);
        }
        let mut n: usize = 1;
        while n < self.starts.len() && self.starts[n] <= offset
            invariant
                increasing(self.starts@),
                1 <= n <= self.starts@.len(),
                forall|i: int| 0 <= i < n ==> self.starts@[i] <= offset,
            decreases self.starts.len() - n,
        {
            n = n + 1;
        }
        proof {
            lemma_starts_up_to(self.starts@, offset, n as int);
            lemma_increasing_at_least(self.starts@, n - 1);
        }
        let line: usize = n - 1;
        let start: u32 = self.starts[line];
        Position { line: line as u32, character: offset - start }
    }
}

impl Clone for LineIndex {
    fn clone(&self) -> (r: Self)
        ensures
            r@ == self@,
    {
        proof {
            use_type_invariant(self);
        }
        LineIndex { starts: vstd::slice::slice_to_vec(self.starts.as_slice()) }
    }
}

/// A place is in the line that the offset falls into: the line starts no later
/// than the offset, the next line, where there is one, starts later, and the
/// offset is found again by counting on from the line's start.
pub proof fn law_position_is_in_its_line(starts: Seq<u32>, offset: u32)
    requires
        increasing(starts),
    ensures
        position(starts, offset).line < starts.len(),
        starts[position(starts, offset).line as int] + position(starts, offset).character
            == offset,
        position(starts, offset).line + 1 < starts.len() ==> offset < starts[position(
            starts,
            offset,
        ).line + 1],
{
    let n = first_later(starts, offset, 1);
    lemma_starts_up_to(starts, offset, n);
    lemma_increasing_at_least(starts, n - 1);
}

/// The first index from `n` on whose offset lies behind `offset`.
proof fn first_later(starts: Seq<u32>, offset: u32, n: int) -> (r: int)
    requires
        increasing(starts),
        1 <= n <= starts.len(),
        forall|i: int| 0 <= i < n ==> starts[i] <= offset,
    ensures
        1 <= r <= starts.len(),
        forall|i: int| 0 <= i < r ==> starts[i] <= offset,
        forall|i: int| r <= i < starts.len() ==> starts[i] > offset,
    decreases starts.len() - n,
{
    if n < starts.len() && starts[n] <= offset {
        first_later(starts, offset, n + 1)
    } else {
        n
    }
}

/// A later offset is never in an earlier line, nor earlier in the same line.
pub proof fn law_positions_keep_order(starts: Seq<u32>, a: u32, b: u32)
    requires
        increasing(starts),
        a <= b,
    ensures
        position(starts, a).line <= position(starts, b).line,
        position(starts, a).line == position(starts, b).line ==> position(starts, a).character
            <= position(starts, b).character,
{
    law_position_is_in_its_line(starts, a);
    law_position_is_in_its_line(starts, b);
    let la = position(starts, a).line as int;
    let lb = position(starts, b).line as int;
    if lb < la {
        assert(starts[lb + 1] <= starts[la]) by {
            if lb + 1 < la {
                assert(starts[lb + 1] < starts[la]);
            }
        }
    }
}

/// A place is where an offset is in a text with lines that start at these offsets.
pub open spec fn is_place(starts: Seq<u32>, offset: int, place: Position) -> bool {
    &&& place.line < starts.len()
    &&& starts[place.line as int] + place.character == offset
    &&& place.line + 1 < starts.len() ==> offset < starts[place.line + 1]
}

/// A range runs from one offset to another.
pub open spec fn is_range(starts: Seq<u32>, from: int, to: int, range: Range) -> bool {
    is_place(starts, from, range.start) && is_place(starts, to, range.end)
}

/// How many line feeds a text has.
pub open spec fn line_feeds(text: Seq<char>) -> nat {
    text.filter(|c: char| c == '\n').len()
}

/// What stands behind the last line feed of a text.
pub open spec fn last_line(text: Seq<char>) -> Seq<char>
    decreases text.len(),
{
    if text.len() == 0 || text.last() == '\n' {
        Seq::empty()
    } else {
        last_line(text.drop_last()).push(text.last())
    }
}

/// There is a line for each line feed and one more, and the last line is as long
/// as what stands behind the last line feed.
proof fn lemma_line_starts(text: Seq<char>)
    ensures
        line_starts(text).len() == line_feeds(text) + 1,
        line_starts(text).last() + utf16_len(last_line(text)) == utf16_len(text),
    decreases text.len(),
{
    reveal(Seq::filter);
    if text.len() > 0 {
        let shorter = text.drop_last();
        lemma_line_starts(shorter);
        lemma_line_starts_increase(shorter);
        if text.last() != '\n' {
            let line = last_line(shorter);
            assert(line.push(text.last()).drop_last() =~= line);
        }
    }
}

/// The lines of the start of a text are the first of the lines of the text, and
/// the others start behind it.
proof fn lemma_lines_of_prefix(text: Seq<char>, i: int)
    requires
        0 <= i <= text.len(),
    ensures
        ({
            let (all, first) = (line_starts(text), line_starts(text.take(i)));
            &&& first.len() <= all.len()
            &&& forall|k: int| 0 <= k < first.len() ==> #[trigger] all[k] == first[k]
            &&& forall|k: int|
                first.len() <= k < all.len() ==> #[trigger] all[k] > utf16_len(text.take(i))
        }),
    decreases text.len(),
{
    if i == text.len() {
        assert(text.take(i) =~= text);
    } else {
        let shorter = text.drop_last();
        lemma_lines_of_prefix(shorter, i);
        assert(shorter.take(i) =~= text.take(i));
        lemma_utf16_len_prefix(shorter, i);
    }
}

/// The place of a character in a text: its line is the number of line feeds before
/// it, and how far it is in the line, the length of what stands between the last of
/// them and it.
pub proof fn law_place_counts_line_feeds(text: Seq<char>, i: int)
    requires
        0 <= i <= text.len(),
        utf16_len(text) <= u32::MAX,
    ensures
        ({
            let place = position(starts_of(text), utf16_len(text.take(i)) as u32);
            &&& place.line == line_feeds(text.take(i))
            &&& place.character == utf16_len(last_line(text.take(i)))
        }),
{
    let before = text.take(i);
    let offset = utf16_len(before) as u32;
    let starts = starts_of(text);
    lemma_utf16_len_prefix(text, i);
    lemma_line_starts(before);
    lemma_lines_of_prefix(text, i);
    lemma_line_starts_increase(text);
    lemma_line_starts_increase(before);
    let n = line_starts(before).len() as int;
    assert forall|k: int| 0 <= k < starts.len() implies #[trigger] starts[k] == line_starts(text)[k]
        && line_starts(text)[k] <= u32::MAX by {
        if k < line_starts(text).len() - 1 {
            assert(line_starts(text)[k] < line_starts(text).last());
        }
    }
    assert forall|k: int| 0 <= k < n implies starts[k] <= offset by {
        assert(line_starts(text)[k] == line_starts(before)[k]);
        if k < n - 1 {
            assert(line_starts(before)[k] < line_starts(before).last());
        }
    }
    assert forall|k: int| n <= k < starts.len() implies starts[k] > offset by {
        assert(line_starts(text)[k] > utf16_len(before));
    }
    lemma_starts_up_to(starts, offset, n);
    lemma_line_feeds_fit(before);
    assert(starts[n - 1] == line_starts(before)[n - 1]);
}

/// A text has no more line feeds than UTF-16 code units.
proof fn lemma_line_feeds_fit(text: Seq<char>)
    ensures
        line_feeds(text) <= utf16_len(text),
    decreases text.len(),
{
    reveal(Seq::filter);
    if text.len() > 0 {
        lemma_line_feeds_fit(text.drop_last());
    }
}

/// A slice between the offsets of two characters holds the characters from the one
/// to the other.
pub proof fn law_slice_between_characters(text: Seq<char>, i: int, j: int)
    requires
        0 <= i <= j <= text.len(),
    ensures
        utf16_slice(text, utf16_len(text.take(i)), utf16_len(text.take(j))) == text.subrange(i, j),
{
    lemma_chars_before_prefix(text, i);
    lemma_chars_before_prefix(text, j);
    lemma_utf16_len_prefix(text.take(j), i);
    assert(text.take(j).take(i) =~= text.take(i));
}

/// As many characters start before the end of the start of a text as it has.
proof fn lemma_chars_before_prefix(text: Seq<char>, i: int)
    requires
        0 <= i <= text.len(),
    ensures
        chars_before(text, utf16_len(text.take(i))) == i,
    decreases text.len(),
{
    if text.len() > 0 {
        let shorter = text.drop_last();
        if i == text.len() {
            assert(text.take(i) =~= text);
        } else {
            lemma_chars_before_prefix(shorter, i);
            lemma_utf16_len_prefix(shorter, i);
            assert(shorter.take(i) =~= text.take(i));
        }
    }
}

/// A character beyond the first sixteen bits counts two, any other one.
pub proof fn law_length_of_character(text: Seq<char>, c: char)
    ensures
        utf16_len(text.push(c)) == utf16_len(text) + if c as u32 > 0xffff {
            2int
        } else {
            1
        },
        utf16_len(Seq::empty()) == 0,
{
    assert(text.push(c).drop_last() =~= text);
}

} // verus!
