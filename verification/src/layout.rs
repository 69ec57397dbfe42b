//! Glyph layout: from a text and the metrics of a font to the positions at
//! which its glyphs are requested.
//!
//! Lengths are integers in layout units. The caret starts on the first
//! baseline, a line break takes it to the start of the next one, and every
//! visible character is placed at the caret, moved by the kerning against
//! the glyph before it on the line, and then pushes the caret on by its
//! advance width.

use vstd::prelude::*;
use unicode_normalization::UnicodeNormalization;

verus! {

/// The longest text, in code points after normalization, that is laid out.
/// Up to this length no position leaves the range of `i64`.
pub const MAX_TEXT_LEN: usize = 0x1000_0000;

/// The vertical metrics of a font at one scale.
#[derive(Clone, Copy, Debug, PartialEq, Eq, Structural)]
pub struct VMetrics {
    /// From the baseline up to the highest edge of any glyph.
    pub ascent: i32,
    /// From the baseline to the lowest edge of any glyph; negative below it.
    pub descent: i32,
    /// The extra space between two lines.
    pub line_gap: i32,
}

/// What a font says of one code point at one scale.
#[derive(Clone, Copy, Debug, PartialEq, Eq, Structural)]
pub struct GlyphMetrics {
    pub code_point: char,
    pub glyph_id: u32,
    pub advance_width: i32,
}

/// The kerning between two glyphs that stand side by side.
#[derive(Clone, Copy, Debug, PartialEq, Eq, Structural)]
pub struct KerningPair {
    pub left: u32,
    pub right: u32,
    pub amount: i32,
}

/// The metrics of one font at one scale, as tables. Of two entries for one
/// code point, or for one pair of glyphs, the first counts. A code point
/// without an entry is shown by glyph 0 with no advance; a pair without an
/// entry has no kerning.
#[derive(Debug, PartialEq, Eq)]
pub struct FontMetrics {
    pub font_key: usize,
    pub v_metrics: VMetrics,
    pub glyphs: Vec<GlyphMetrics>,
    pub kerning: Vec<KerningPair>,
}

/// A glyph at a place: what is asked of the atlas and drawn on the screen.
#[derive(Clone, Copy, Debug, PartialEq, Eq, Structural)]
pub struct GlyphRequest {
    pub font_key: usize,
    pub code_point: char,
    pub glyph_id: u32,
    pub scale: u32,
    /// The pen position, with `y` on the baseline.
    pub x: i64,
    pub y: i64,
}

/// Where the next glyph goes, and the glyph before it on the line.
pub struct Caret {
    pub x: int,
    pub y: int,
    pub last_glyph: Option<u32>,
}

/// The control characters: U+0000 to U+001F and U+007F to U+009F.
pub open spec fn is_control_char(c: char) -> bool {
    c as u32 <= 0x1f || (0x7f <= c as u32 && c as u32 <= 0x9f)
}

/// The control characters that start a new line.
pub open spec fn is_line_break(c: char) -> bool {
    c == '\n' || c == '\r'
}

/// The first entry for `c` in `glyphs`.
pub open spec fn glyph_entry(glyphs: Seq<GlyphMetrics>, c: char) -> Option<GlyphMetrics>
    decreases glyphs.len(),
{
    if glyphs.len() == 0 {
        None
    } else if glyphs[0].code_point == c {
        Some(glyphs[0])
    } else {
        glyph_entry(glyphs.drop_first(), c)
    }
}

/// The amount of the first entry for `left` followed by `right` in `pairs`,
/// or zero.
pub open spec fn kerning_amount(pairs: Seq<KerningPair>, left: u32, right: u32) -> int
    decreases pairs.len(),
{
    if pairs.len() == 0 {
        0
    } else if pairs[0].left == left && pairs[0].right == right {
        pairs[0].amount as int
    } else {
        kerning_amount(pairs.drop_first(), left, right)
    }
}

/// How many characters of `chars` are shown by a glyph.
pub open spec fn visible_count(chars: Seq<char>) -> nat
    decreases chars.len(),
{
    if chars.len() == 0 {
        0
    } else if is_control_char(chars.last()) {
        visible_count(chars.drop_last())
    } else {
        visible_count(chars.drop_last()) + 1
    }
}

impl FontMetrics {
    /// The glyph that shows `c`.
    pub open spec fn glyph_id_of(&self, c: char) -> u32 {
        match glyph_entry(self.glyphs@, c) {
            Some(g) => g.glyph_id,
            None => 0,
        }
    }

    /// How far the glyph of `c` pushes the caret.
    pub open spec fn advance_of(&self, c: char) -> int {
        match glyph_entry(self.glyphs@, c) {
            Some(g) => g.advance_width as int,
            None => 0,
        }
    }

    /// The kerning of `left` followed by `right`.
    pub open spec fn kerning_of(&self, left: u32, right: u32) -> int {
        kerning_amount(self.kerning@, left, right)
    }

    /// From one baseline to the next.
    pub open spec fn line_height(&self) -> int {
        self.v_metrics.ascent - self.v_metrics.descent + self.v_metrics.line_gap
    }

    /// The caret before the first character: at the left, on the first
    /// baseline.
    pub open spec fn start(&self) -> Caret {
        Caret { x: 0, y: self.v_metrics.ascent as int, last_glyph: None }
    }

    /// Where the glyph of the visible character `c` is put when the caret is
    /// `caret`: at the caret, moved by the kerning against the glyph before.
    pub open spec fn pen_x(&self, caret: Caret, c: char) -> int {
        match caret.last_glyph {
            Some(before) => caret.x + self.kerning_of(before, self.glyph_id_of(c)),
            None => caret.x,
        }
    }

    /// The caret after `c`.
    pub open spec fn step(&self, caret: Caret, c: char) -> Caret {
        if is_line_break(c) {
            Caret { x: 0, y: caret.y + self.line_height(), last_glyph: None }
        } else if is_control_char(c) {
            caret
        } else {
            Caret {
                x: self.pen_x(caret, c) + self.advance_of(c),
                y: caret.y,
                last_glyph: Some(self.glyph_id_of(c)),
            }
        }
    }

    /// The caret after all of `chars`.
    pub open spec fn caret_after(&self, chars: Seq<char>) -> Caret
        decreases chars.len(),
    {
        if chars.len() == 0 {
            self.start()
        } else {
            self.step(self.caret_after(chars.drop_last()), chars.last())
        }
    }

    /// The request for the glyph of the visible character `c` at `caret`.
    pub open spec fn request_at(&self, caret: Caret, c: char, size: u32) -> GlyphRequest {
        GlyphRequest {
            font_key: self.font_key,
            code_point: c,
            glyph_id: self.glyph_id_of(c),
            scale: size,
            x: self.pen_x(caret, c) as i64,
            y: caret.y as i64,
        }
    }

    /// The requests for `chars` at scale `size`, in the order of the text:
    /// one for each character that is not a control character.
    pub open spec fn layout_of(&self, chars: Seq<char>, size: u32) -> Seq<GlyphRequest>
        decreases chars.len(),
    {
        if chars.len() == 0 {
            Seq::empty()
        } else {
            let before = self.layout_of(chars.drop_last(), size);
            if is_control_char(chars.last()) {
                before
            } else {
                before.push(self.request_at(self.caret_after(chars.drop_last()), chars.last(), size))
            }
        }
    }

    /// The first entry for `c`, if there is one.
    pub fn find_glyph(&self, c: char) -> (r: Option<GlyphMetrics>)
        ensures
            r == glyph_entry(self.glyphs@, c),
    {
        let mut i: usize = 0;
        proof {
            assert(self.glyphs@.skip(0) =~= self.glyphs@);
        }
        while i < self.glyphs.len()
            invariant
                i <= self.glyphs.len(),
                glyph_entry(self.glyphs@, c) == glyph_entry(self.glyphs@.skip(i as int), c),
            decreases self.glyphs.len() - i,
        {
            let g = self.glyphs[i];
            if g.code_point == c {
                return Some(g);
            }
            proof {
                assert(self.glyphs@.skip(i as int).drop_first() =~= self.glyphs@.skip(i + 1));
            }
            i += 1;
        }
        None
    }

    /// The kerning of `left` followed by `right`.
    pub fn pair_kerning(&self, left: u32, right: u32) -> (k: i32)
        ensures
            k == self.kerning_of(left, right),
    {
        let mut i: usize = 0;
        proof {
            assert(self.kerning@.skip(0) =~= self.kerning@);
        }
        while i < self.kerning.len()
            invariant
                i <= self.kerning.len(),
                kerning_amount(self.kerning@, left, right) == kerning_amount(
                    self.kerning@.skip(i as int),
                    left,
                    right,
                ),
            decreases self.kerning.len() - i,
        {
            let p = self.kerning[i];
            if p.left == left && p.right == right {
                return p.amount;
            }
            proof {
                assert(self.kerning@.skip(i as int).drop_first() =~= self.kerning@.skip(i + 1));
            }
            i += 1;
        }
        0
    }
}

/// Whether `c` is a control character.
pub fn is_control(c: char) -> (r: bool)
    ensures
        r == is_control_char(c),
{
    let n: u32 = c as u32;
    n <= 0x1f || (0x7f <= n && n <= 0x9f)
}

/// The number of requests is the number of characters that are not control
/// characters.
pub proof fn layout_length(font: FontMetrics, chars: Seq<char>, size: u32)
    ensures
        font.layout_of(chars, size).len() == visible_count(chars),
        visible_count(chars) <= chars.len(),
    decreases chars.len(),
{
    if chars.len() > 0 {
        layout_length(font, chars.drop_last(), size);
    }
}

/// Two visible characters side by side: the first stands at the start of
/// the first baseline, the second after the advance of the first, moved by
/// the kerning of the two.
pub proof fn layout_of_a_pair(font: FontMetrics, a: char, b: char, size: u32)
    requires
        !is_control_char(a),
        !is_control_char(b),
    ensures
        ({
            let glyphs = font.layout_of(seq![a, b], size);
            &&& glyphs.len() == 2
            &&& glyphs[0].code_point == a
            &&& glyphs[0].x == 0
            &&& glyphs[0].y == font.v_metrics.ascent
            &&& glyphs[1].code_point == b
            &&& glyphs[1].x == font.advance_of(a) + font.kerning_of(
                font.glyph_id_of(a),
                font.glyph_id_of(b),
            )
            &&& glyphs[1].y == font.v_metrics.ascent
        }),
{
    let text = seq![a, b];
    assert(text.drop_last() =~= seq![a]);
    assert(seq![a].drop_last() =~= Seq::<char>::empty());
    reveal_with_fuel(FontMetrics::layout_of, 3);
    reveal_with_fuel(FontMetrics::caret_after, 3);
    kerning_fits(font.kerning@, font.glyph_id_of(a), font.glyph_id_of(b));
}

/// The caret moves by less than `2^32` units sideways and `2^33` units
/// down with each character, so that up to `MAX_TEXT_LEN` characters every
/// position fits in `i64`.
pub proof fn caret_stays_in_range(font: FontMetrics, chars: Seq<char>)
    ensures
        ({
            let caret = font.caret_after(chars);
            &&& -0x1_0000_0000 * chars.len() <= caret.x <= 0x1_0000_0000 * chars.len()
            &&& -0x8000_0000 - 0x2_0000_0000 * chars.len() <= caret.y <= 0x8000_0000
                + 0x2_0000_0000 * chars.len()
            &&& chars.len() <= MAX_TEXT_LEN ==> i64::MIN <= caret.x <= i64::MAX && i64::MIN
                <= caret.y <= i64::MAX
        }),
    decreases chars.len(),
{
    if chars.len() > 0 {
        let before = font.caret_after(chars.drop_last());
        caret_stays_in_range(font, chars.drop_last());
        match before.last_glyph {
            Some(g) => kerning_fits(font.kerning@, g, font.glyph_id_of(chars.last())),
            None => {},
        }
    }
}

proof fn kerning_fits(pairs: Seq<KerningPair>, left: u32, right: u32)
    ensures
        i32::MIN <= kerning_amount(pairs, left, right) <= i32::MAX,
    decreases pairs.len(),
{
    if pairs.len() > 0 {
        kerning_fits(pairs.drop_first(), left, right);
    }
}

/// A character after a line break stands at the start of the next
/// baseline, one line height below, whatever stood before the break.
pub proof fn layout_after_a_line_break(
    font: FontMetrics,
    a: char,
    line_break: char,
    b: char,
    size: u32,
)
    requires
        !is_control_char(a),
        is_line_break(line_break),
        !is_control_char(b),
    ensures
        ({
            let glyphs = font.layout_of(seq![a, line_break, b], size);
            &&& glyphs.len() == 2
            &&& glyphs[0].x == 0
            &&& glyphs[0].y == font.v_metrics.ascent
            &&& glyphs[1].code_point == b
            &&& glyphs[1].x == 0
            &&& glyphs[1].y == font.v_metrics.ascent + font.line_height()
        }),
{
    let text = seq![a, line_break, b];
    assert(text.drop_last() =~= seq![a, line_break]);
    assert(seq![a, line_break].drop_last() =~= seq![a]);
    assert(seq![a].drop_last() =~= Seq::<char>::empty());
    reveal_with_fuel(FontMetrics::layout_of, 4);
    reveal_with_fuel(FontMetrics::caret_after, 4);
}

/// The canonical composition (normalization form C) of a text.
pub uninterp spec fn nfc_form(text: Seq<char>) -> Seq<char>;

/// Calls `nfc` of `unicode_normalization` on the text and collects what its
/// iterator yields: the text in normalization form C. The code points that
/// make up that form are not spelled out here; they are `nfc_form` of the
/// text.
#[verifier::external_body]
fn nfc_chars(text: &str) -> (chars: Vec<char>)
    ensures
        chars@ == nfc_form(text@),
{
    text.nfc().collect()
}

proof fn push_contains(s: Seq<char>, c: char, d: char)
    ensures
        s.push(c).contains(d) <==> s.contains(d) || d == c,
{
    if s.contains(d) {
        let j = choose|j: int| 0 <= j < s.len() && s[j] == d;
        assert(s.push(c)[j] == d);
    }
    if d == c {
        assert(s.push(c)[s.len() as int] == d);
    }
}

/// Whether `c` is among `chars`.
fn contains_char(chars: &Vec<char>, c: char) -> (found: bool)
    ensures
        found == chars@.contains(c),
{
    let mut i: usize = 0;
    while i < chars.len()
        invariant
            i <= chars.len(),
            forall|j: int| 0 <= j < i ==> chars@[j] != c,
        decreases chars.len() - i,
    {
        if chars[i] == c {
            return true;
        }
        i += 1;
    }
    false
}

/// The characters of `chars` that are shown by a glyph, each once, in the
/// order in which they first occur.
pub fn distinct_visible(chars: &Vec<char>) -> (distinct: Vec<char>)
    ensures
        distinct@.no_duplicates(),
        forall|c: char|
            #[trigger] distinct@.contains(c) <==> chars@.contains(c) && !is_control_char(c),
{
    let mut distinct: Vec<char> = Vec::new();
    let mut i: usize = 0;
    while i < chars.len()
        invariant
            i <= chars.len(),
            distinct@.no_duplicates(),
            forall|c: char|
                #[trigger] distinct@.contains(c) <==> chars@.take(i as int).contains(c)
                    && !is_control_char(c),
        decreases chars.len() - i,
    {
        let c = chars[i];
        let ghost before = distinct@;
        let ghost seen = chars@.take(i as int);
        let fresh = !is_control(c) && !contains_char(&distinct, c);
        if fresh {
            distinct.push(c);
        }
        proof {
            assert(chars@.take(i + 1) =~= seen.push(c));
            assert forall|d: char| #[trigger]
                distinct@.contains(d) <==> seen.push(c).contains(d) && !is_control_char(d) by {
                push_contains(seen, c, d);
                push_contains(before, c, d);
                assert(before.contains(d) <==> seen.contains(d) && !is_control_char(d));
            }
        }
        i += 1;
    }
    proof {
        assert(chars@.take(i as int) =~= chars@);
    }
    distinct
}

/// The characters whose glyphs the layout of `text` asks for: those of its
/// normalization form C that are no control characters, each once.
pub fn visible_chars(text: &str) -> (distinct: Vec<char>)
    ensures
        distinct@.no_duplicates(),
        forall|c: char|
            #[trigger] distinct@.contains(c) <==> nfc_form(text@).contains(c) && !is_control_char(
                c,
            ),
{
    let chars = nfc_chars(text);
    distinct_visible(&chars)
}

/// Lays out a text that is already normalized: the requests for its glyphs
/// at scale `size`, in the order of the text.
pub fn layout_normalized(font: &FontMetrics, chars: &Vec<char>, size: u32) -> (glyphs: Vec<
    GlyphRequest,
>)
    requires
        chars.len() <= MAX_TEXT_LEN,
    ensures
        glyphs@ == font.layout_of(chars@, size),
        glyphs@.len() == visible_count(chars@),
{
    let ascent: i64 = font.v_metrics.ascent as i64;
    let line_height: i64 = ascent - font.v_metrics.descent as i64 + font.v_metrics.line_gap as i64;
    let mut glyphs: Vec<GlyphRequest> = Vec::new();
    let mut x: i64 = 0;
    let mut y: i64 = ascent;
    let mut last_glyph: Option<u32> = None;
    let mut i: usize = 0;
    proof {
        assert(chars@.take(0) =~= Seq::<char>::empty());
    }
    while i < chars.len()
        invariant
            i <= chars.len() <= MAX_TEXT_LEN,
            ascent == font.v_metrics.ascent,
            line_height == font.line_height(),
            glyphs@ == font.layout_of(chars@.take(i as int), size),
            font.caret_after(chars@.take(i as int)) == (Caret { x: x as int, y: y as int, last_glyph }),
            -0x1_0000_0000 * i <= x <= 0x1_0000_0000 * i,
            -0x8000_0000 - 0x2_0000_0000 * i <= y <= 0x8000_0000 + 0x2_0000_0000 * i,
        decreases chars.len() - i,
    {
        let c = chars[i];
        proof {
            let next = chars@.take(i + 1);
            assert(next.drop_last() =~= chars@.take(i as int));
            assert(next.last() == c);
        }
        if c == '\n' || c == '\r' {
            x = 0;
            y = y + line_height;
            last_glyph = None;
        } else if !is_control(c) {
            let (glyph_id, advance): (u32, i32) = match font.find_glyph(c) {
                Some(g) => (g.glyph_id, g.advance_width),
                None => (0, 0),
            };
            let pen: i64 = match last_glyph {
                Some(before) => x + font.pair_kerning(before, glyph_id) as i64,
                None => x,
            };
            glyphs.push(
                GlyphRequest { font_key: font.font_key, code_point: c, glyph_id, scale: size, x: pen, y },
            );
            x = pen + advance as i64;
            last_glyph = Some(glyph_id);
        }
        i += 1;
    }
    proof {
        assert(chars@.take(i as int) =~= chars@);
        layout_length(*font, chars@, size);
    }
    glyphs
}

/// Lays out a text: brings it into normalization form C and requests the
/// glyphs of that form at scale `size`. A text whose normal form is longer
/// than `MAX_TEXT_LEN` is not laid out.
pub fn layout_paragraph(font: &FontMetrics, text: &str, size: u32) -> (glyphs: Option<
    Vec<GlyphRequest>,
>)
    ensures
        nfc_form(text@).len() <= MAX_TEXT_LEN ==> glyphs.is_some() && glyphs.unwrap()@
            == font.layout_of(nfc_form(text@), size) && glyphs.unwrap()@.len() == visible_count(
            nfc_form(text@),
        ),
        nfc_form(text@).len() > MAX_TEXT_LEN ==> glyphs.is_none(),
{
    let chars = nfc_chars(text);
    if chars.len() > MAX_TEXT_LEN {
        None
    } else {
        Some(layout_normalized(font, &chars, size))
    }
}

} // verus!
