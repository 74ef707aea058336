//! What a frame shows: the shell output, the status line, the keyboard grid
//! and the legend, as styled runs of text per screen row.

use vstd::prelude::*;
use vstd::utf8::encode_utf8;
use crate::keyboard::KeyView;
use crate::keyboard::KeyboardState;
use crate::keyboard::KeyboardView;
use crate::keyboard::KeyDef;
use crate::keyboard::Layer;
use crate::keyboard::current_layout;
use crate::keyboard::key_width;
use crate::keyboard::layer_name;
use crate::keyboard::lemma_layout_shape;
use crate::keyboard::lemma_key_widths;
use crate::keyboard::rows_view;
use crate::session::sat_sub;
use crate::session::shell_height;
use crate::session::shell_height_for;
use crate::text::char_to_string;
use crate::text::push_char;
use crate::text::push_repeated;
use crate::text::repeat_char;
use crate::text::string_from_chars;
use crate::text::lemma_encode_utf8_concat;
use crate::text::lemma_encode_ascii_char;

verus! {

#[derive(Debug, Clone, Copy, PartialEq, Eq, Structural)]
pub enum Color {
    White,
    Black,
    Green,
    Yellow,
    Magenta,
    DarkBlue,
    Cyan,
    DarkGrey,
    DarkYellow,
}

/// A run of text drawn in one style; a `None` color is the terminal's
/// default.
#[derive(Debug)]
pub struct Segment {
    pub bg: Option<Color>,
    pub fg: Option<Color>,
    pub text: String,
}

#[verifier::ext_equal]
pub struct SegmentView {
    pub bg: Option<Color>,
    pub fg: Option<Color>,
    pub text: Seq<char>,
}

impl View for Segment {
    type V = SegmentView;

    open spec fn view(&self) -> SegmentView {
        SegmentView { bg: self.bg, fg: self.fg, text: self.text@ }
    }
}

/// The runs drawn on one screen row, from its first column.
#[derive(Debug)]
pub struct ScreenLine {
    pub row: u16,
    pub segments: Vec<Segment>,
}

#[verifier::ext_equal]
pub struct LineView {
    pub row: u16,
    pub segments: Seq<SegmentView>,
}

pub open spec fn segments_view(v: Seq<Segment>) -> Seq<SegmentView> {
    v.map_values(|s: Segment| s@)
}

impl View for ScreenLine {
    type V = LineView;

    open spec fn view(&self) -> LineView {
        LineView { row: self.row, segments: segments_view(self.segments@) }
    }
}

pub open spec fn lines_view(v: Seq<ScreenLine>) -> Seq<LineView> {
    v.map_values(|l: ScreenLine| l@)
}

pub open spec fn plain(text: Seq<char>) -> SegmentView {
    SegmentView { bg: None, fg: None, text }
}

pub open spec fn styled(bg: Color, fg: Color, text: Seq<char>) -> SegmentView {
    SegmentView { bg: Some(bg), fg: Some(fg), text }
}

fn plain_segment(text: String) -> (s: Segment)
    ensures
        s@ == plain(text@),
{
    Segment { bg: None, fg: None, text }
}

fn styled_segment(bg: Color, fg: Color, text: String) -> (s: Segment)
    ensures
        s@ == styled(bg, fg, text@),
{
    Segment { bg: Some(bg), fg: Some(fg), text }
}

// ---------------------------------------------------------------------------
// Shell output
// ---------------------------------------------------------------------------

pub open spec fn min_int(a: int, b: int) -> int {
    if a <= b { a } else { b }
}

/// A screen row cut or padded with spaces to `cols` characters.
pub open spec fn padded(row: Seq<char>, cols: nat) -> Seq<char> {
    Seq::new(cols, |c: int| if c < row.len() { row[c] } else { ' ' })
}

pub open spec fn char_rows(rows: Seq<Vec<char>>) -> Seq<Seq<char>> {
    rows.map_values(|r: Vec<char>| r@)
}

/// Whether the cursor is drawn on shell row `r`: it is shown, on that row,
/// and its column is below the row's length in UTF-8 bytes.
pub open spec fn cursor_drawn(rows: Seq<Seq<char>>, r: int, cols: nat, cursor: (u16, u16), hide: bool) -> bool {
    &&& r < rows.len()
    &&& !hide
    &&& r == cursor.0
    &&& (cursor.1 as int) < encode_utf8(padded(rows[r], cols)).len()
}

/// One row of shell output; the character under the cursor is drawn black
/// on white.
pub open spec fn shell_line_segments(rows: Seq<Seq<char>>, r: int, cols: nat, cursor: (u16, u16), hide: bool) -> Seq<SegmentView> {
    if r < rows.len() {
        let line = padded(rows[r], cols);
        let cc = cursor.1 as int;
        if cursor_drawn(rows, r, cols, cursor, hide) {
            seq![
                plain(line.take(min_int(cc, cols as int))),
                styled(Color::White, Color::Black, seq![if cc < cols { line[cc] } else { ' ' }]),
                plain(line.skip(min_int(cc + 1, cols as int))),
            ]
        } else {
            seq![plain(line)]
        }
    } else {
        seq![plain(repeat_char(' ', cols))]
    }
}

pub open spec fn shell_area_view(rows: Seq<Seq<char>>, cols: nat, height: nat, cursor: (u16, u16), hide: bool) -> Seq<LineView> {
    Seq::new(height, |r: int| LineView { row: r as u16, segments: shell_line_segments(rows, r, cols, cursor, hide) })
}

/// The inputs on which the shell area is drawn without overflow: the
/// column after a drawn cursor must exist.
pub open spec fn shell_area_ok(rows: Seq<Seq<char>>, cols: nat, height: nat, cursor: (u16, u16), hide: bool) -> bool {
    (cursor.0 < height && cursor_drawn(rows, cursor.0 as int, cols, cursor, hide)) ==> cursor.1 < u16::MAX
}

/// The characters `from..to` of `v`.
fn chars_range(v: &Vec<char>, from: usize, to: usize) -> (s: String)
    requires
        from <= to <= v@.len(),
    ensures
        s@ == v@.subrange(from as int, to as int),
{
    let mut s = String::new();
    let mut i = from;
    while i < to
        invariant
            from <= i <= to <= v@.len(),
            s@ == v@.subrange(from as int, i as int),
        decreases to - i,
    {
        push_char(&mut s, v[i]);
        i += 1;
        assert(s@ =~= v@.subrange(from as int, i as int));
    }
    s
}

fn shell_line(rows: &Vec<Vec<char>>, r: u16, cols: u16, cursor: (u16, u16), hide_cursor: bool) -> (segs: Vec<Segment>)
    requires
        cursor_drawn(char_rows(rows@), r as int, cols as nat, cursor, hide_cursor) ==> cursor.1 < u16::MAX,
    ensures
        segments_view(segs@) == shell_line_segments(char_rows(rows@), r as int, cols as nat, cursor, hide_cursor),
{
    let ghost crows = char_rows(rows@);
    let r_usize = r as usize;
    if r_usize < rows.len() {
        let row = &rows[r_usize];
        let mut line: Vec<char> = Vec::new();
        let mut c: usize = 0;
        while c < cols as usize
            invariant
                0 <= c <= cols,
                line@ == padded(row@, cols as nat).take(c as int),
            decreases cols - c,
        {
            if c < row.len() {
                line.push(row[c]);
            } else {
                line.push(' ');
            }
            c += 1;
            assert(line@ =~= padded(row@, cols as nat).take(c as int));
        }
        assert(line@ =~= padded(row@, cols as nat));
        assert(crows[r as int] == row@);
        let line_buf = string_from_chars(&line);
        proof {
            crate::keyboard::lemma_encode_utf8_len(line@);
        }
        let (cursor_row, cursor_col) = cursor;
        if !hide_cursor && r == cursor_row && (cursor_col as usize) < line_buf.as_str().len() {
            let cc = cursor_col as usize;
            let take_to = if cc < line.len() { cc } else { line.len() };
            let before = chars_range(&line, 0, take_to);
            let cur_char = if cc < line.len() { line[cc] } else { ' ' };
            let next: u16 = cursor_col + 1;
            let skip_from = if (next as usize) < line.len() { next as usize } else { line.len() };
            let after = chars_range(&line, skip_from, line.len());
            assert(before@ =~= line@.take(min_int(cc as int, cols as int)));
            assert(after@ =~= line@.skip(min_int(cc + 1, cols as int)));
            let cur = char_to_string(cur_char);
            let s0 = plain_segment(before);
            let s1 = styled_segment(Color::White, Color::Black, cur);
            let s2 = plain_segment(after);
            assert(cursor_drawn(crows, r as int, cols as nat, cursor, hide_cursor));
            let ghost want = shell_line_segments(crows, r as int, cols as nat, cursor, hide_cursor);
            assert(want[0] == s0@);
            assert(want[1] == s1@);
            assert(want[2] == s2@);
            let segs = vec![s0, s1, s2];
            assert(segments_view(segs@) =~= want);
            segs
        } else {
            let segs = vec![plain_segment(line_buf)];
            assert(segments_view(segs@) =~= shell_line_segments(crows, r as int, cols as nat, cursor, hide_cursor));
            segs
        }
    } else {
        let mut blank = String::new();
        push_repeated(&mut blank, ' ', cols as usize);
        let segs = vec![plain_segment(blank)];
        assert(segments_view(segs@) =~= shell_line_segments(crows, r as int, cols as nat, cursor, hide_cursor));
        segs
    }
}

/// The top `shell_height` rows: the shell's screen rows, padded or cut to
/// `cols` characters, with the cursor drawn.
pub fn render_shell_area(
    rows: &Vec<Vec<char>>,
    cursor: (u16, u16),
    hide_cursor: bool,
    cols: u16,
    shell_height: u16,
) -> (lines: Vec<ScreenLine>)
    requires
        shell_area_ok(char_rows(rows@), cols as nat, shell_height as nat, cursor, hide_cursor),
    ensures
        lines_view(lines@) == shell_area_view(char_rows(rows@), cols as nat, shell_height as nat, cursor, hide_cursor),
{
    let ghost target = shell_area_view(char_rows(rows@), cols as nat, shell_height as nat, cursor, hide_cursor);
    let mut lines: Vec<ScreenLine> = Vec::new();
    let mut r: u16 = 0;
    while r < shell_height
        invariant
            0 <= r <= shell_height,
            shell_area_ok(char_rows(rows@), cols as nat, shell_height as nat, cursor, hide_cursor),
            target == shell_area_view(char_rows(rows@), cols as nat, shell_height as nat, cursor, hide_cursor),
            lines_view(lines@) == target.take(r as int),
        decreases shell_height - r,
    {
        let segments = shell_line(rows, r, cols, cursor, hide_cursor);
        let line = ScreenLine { row: r, segments };
        assert(line@ == target[r as int]);
        let ghost prev = lines@;
        lines.push(line);
        assert(lines@ == prev.push(line));
        assert(lines_view(lines@) =~= lines_view(prev).push(line@));
        r += 1;
        assert(lines_view(lines@) =~= target.take(r as int));
    }
    assert(target.take(shell_height as int) =~= target);
    lines
}

// ---------------------------------------------------------------------------
// Status line
// ---------------------------------------------------------------------------

pub open spec fn layer_color(l: Layer) -> Color {
    match l {
        Layer::Base => Color::Green,
        Layer::Numbers => Color::Yellow,
        Layer::Symbols => Color::Magenta,
    }
}

pub open spec fn status_left(mode: Seq<char>) -> Seq<char> {
    " ⌨ cyberdeck-kb ─ ["@ + mode + "] ─ Layer: "@
}

pub open spec fn status_right(s: KeyboardView) -> Seq<char> {
    " ─ "@ + (if s.shift { "[SHIFT: ON]"@ } else { "[SHIFT]"@ }) + " ─ "@ + (if s.ctrl {
        "[CTRL: ON]"@
    } else {
        "[CTRL]"@
    }) + " ─ Last: "@ + s.desc + " "@
}

/// The status line's width as the bar counts it: in UTF-8 bytes.
pub open spec fn status_used(s: KeyboardView, mode: Seq<char>) -> int {
    (encode_utf8(status_left(mode)).len() + encode_utf8(layer_name(s.layer)).len() + encode_utf8(status_right(s)).len()) as int
}

/// White on dark blue: the input mode, the layer in its own color, the
/// modifiers and the last action, then a rule up to the screen width.
pub open spec fn status_line_view(s: KeyboardView, mode: Seq<char>, cols: u16, row: u16) -> LineView {
    LineView {
        row,
        segments: seq![
            styled(Color::DarkBlue, Color::White, status_left(mode)),
            styled(Color::DarkBlue, layer_color(s.layer), layer_name(s.layer)),
            styled(Color::DarkBlue, Color::White, status_right(s)),
            styled(Color::DarkBlue, Color::White, repeat_char('─', sat_sub(cols as int, status_used(s, mode)) as nat)),
        ],
    }
}

fn layer_color_of(l: Layer) -> (c: Color)
    ensures
        c == layer_color(l),
{
    match l {
        Layer::Base => Color::Green,
        Layer::Numbers => Color::Yellow,
        Layer::Symbols => Color::Magenta,
    }
}

pub fn render_status_bar(kb: &KeyboardState, input_mode_name: &str, cols: u16, row: u16) -> (line: ScreenLine)
    requires
        status_used(kb@, input_mode_name@) <= usize::MAX,
    ensures
        line@ == status_line_view(kb@, input_mode_name@, cols, row),
{
    let mut left = String::from_str(" ⌨ cyberdeck-kb ─ [");
    left.append(input_mode_name);
    left.append("] ─ Layer: ");
    let name = String::from_str(kb.active_layer.name());
    let mut right = String::from_str(" ─ ");
    right.append(if kb.shift_active { "[SHIFT: ON]" } else { "[SHIFT]" });
    right.append(" ─ ");
    right.append(if kb.ctrl_active { "[CTRL: ON]" } else { "[CTRL]" });
    right.append(" ─ Last: ");
    right.append(kb.last_output_desc.as_str());
    right.append(" ");
    let used_len = left.as_str().len() + name.as_str().len() + right.as_str().len();
    let fill_len = if (cols as usize) > used_len { (cols as usize) - used_len } else { 0 };
    let mut fill = String::new();
    push_repeated(&mut fill, '─', fill_len);
    let segments = vec![
        styled_segment(Color::DarkBlue, Color::White, left),
        styled_segment(Color::DarkBlue, layer_color_of(kb.active_layer), name),
        styled_segment(Color::DarkBlue, Color::White, right),
        styled_segment(Color::DarkBlue, Color::White, fill),
    ];
    let line = ScreenLine { row, segments };
    assert(line@.segments =~= status_line_view(kb@, input_mode_name@, cols, row).segments);
    line
}

// ---------------------------------------------------------------------------
// Keyboard grid
// ---------------------------------------------------------------------------

/// A key as drawn: the selected key between arrows on cyan, the others in
/// brackets on dark grey.
pub open spec fn key_segment(k: KeyView, selected: bool) -> SegmentView {
    let label = seq![' '] + k.label + seq![' '];
    if selected {
        styled(Color::Cyan, Color::Black, seq!['▶'] + label + seq!['◀'])
    } else {
        styled(Color::DarkGrey, Color::White, seq!['['] + label + seq![']'])
    }
}

/// The first `n` keys of a row, one space apart; `sel` is the selected
/// column, if any.
pub open spec fn keys_segments(keys: Seq<KeyView>, sel: int, n: int) -> Seq<SegmentView>
    decreases n,
{
    if n <= 0 {
        seq![]
    } else {
        keys_segments(keys, sel, n - 1) + (if n - 1 > 0 { seq![plain(seq![' '])] } else { seq![] })
            + seq![key_segment(keys[n - 1], sel == n - 1)]
    }
}

/// The width the grid counts for the first `n` keys: each key's width plus
/// two for its brackets, and the spaces between keys.
pub open spec fn keys_drawn_len(keys: Seq<KeyView>, n: int) -> int
    decreases n,
{
    if n <= 0 {
        0
    } else {
        keys_drawn_len(keys, n - 1) + (if n - 1 > 0 { 1int } else { 0int }) + key_width(keys[n - 1]) + 2
    }
}

/// One grid row: its keys, then blanks up to the screen width.
pub open spec fn grid_line_segments(keys: Seq<KeyView>, sel: int, cols: u16) -> Seq<SegmentView> {
    let drawn = keys_drawn_len(keys, keys.len() as int);
    keys_segments(keys, sel, keys.len() as int) + (if cols > drawn {
        seq![plain(repeat_char(' ', (cols - drawn) as nat))]
    } else {
        seq![]
    })
}

pub open spec fn grid_view(s: KeyboardView, cols: u16, start_row: u16) -> Seq<LineView> {
    let lay = current_layout(s);
    Seq::new(
        lay.len(),
        |r: int|
            LineView {
                row: (start_row + r) as u16,
                segments: grid_line_segments(lay[r], if s.cursor_row == r { s.cursor_col as int } else { -1 }, cols),
            },
    )
}

fn grid_line(keys: &Vec<KeyDef>, ghost_keys: Ghost<Seq<KeyView>>, selected_col: Option<usize>, cols: u16) -> (segs: Vec<Segment>)
    requires
        keys@.map_values(|k: KeyDef| k@) == ghost_keys@,
        keys@.len() == 12,
        forall|j: int| 0 <= j < 12 ==> 2 <= #[trigger] key_width(ghost_keys@[j]) <= 18,
    ensures
        segments_view(segs@) == grid_line_segments(
            ghost_keys@,
            match selected_col {
                Some(c) => c as int,
                None => -1,
            },
            cols,
        ),
{
    let ghost sel: int = match selected_col {
        Some(c) => c as int,
        None => -1,
    };
    let ghost kv = ghost_keys@;
    let mut segs: Vec<Segment> = Vec::new();
    let mut row_rendered_len: usize = 0;
    let item_count = keys.len();
    let mut c_idx: usize = 0;
    while c_idx < item_count
        invariant
            item_count == 12,
            keys@.len() == 12,
            keys@.map_values(|k: KeyDef| k@) == kv,
            forall|j: int| 0 <= j < 12 ==> 2 <= #[trigger] key_width(kv[j]) <= 18,
            0 <= c_idx <= 12,
            sel == (match selected_col {
                Some(c) => c as int,
                None => -1,
            }),
            segments_view(segs@) == keys_segments(kv, sel, c_idx as int),
            row_rendered_len == keys_drawn_len(kv, c_idx as int),
            row_rendered_len <= 21 * c_idx,
        decreases 12 - c_idx,
    {
        if c_idx > 0 {
            let mut gap = String::new();
            push_char(&mut gap, ' ');
            segs.push(plain_segment(gap));
            row_rendered_len += 1;
        }
        assert(keys@[c_idx as int]@ == kv[c_idx as int]);
        let is_selected = match selected_col {
            Some(c) => c == c_idx,
            None => false,
        };
        let mut key_label = String::new();
        push_char(&mut key_label, ' ');
        key_label.append(keys[c_idx].label.as_str());
        push_char(&mut key_label, ' ');
        let label_len = key_label.as_str().len();
        proof {
            lemma_encode_utf8_concat(seq![' '] + kv[c_idx as int].label, seq![' ']);
            lemma_encode_utf8_concat(seq![' '], kv[c_idx as int].label);
            lemma_encode_ascii_char(' ');
            assert(key_label@ =~= seq![' '] + kv[c_idx as int].label + seq![' ']);
            assert(label_len == key_width(kv[c_idx as int]));
        }
        let ghost prev = segments_view(segs@);
        let seg = if is_selected {
            let mut text = String::new();
            push_char(&mut text, '▶');
            text.append(key_label.as_str());
            push_char(&mut text, '◀');
            assert(text@ =~= seq!['▶'] + key_label@ + seq!['◀']);
            styled_segment(Color::Cyan, Color::Black, text)
        } else {
            let mut text = String::new();
            push_char(&mut text, '[');
            text.append(key_label.as_str());
            push_char(&mut text, ']');
            assert(text@ =~= seq!['['] + key_label@ + seq![']']);
            styled_segment(Color::DarkGrey, Color::White, text)
        };
        assert(seg@ == key_segment(kv[c_idx as int], sel == c_idx));
        segs.push(seg);
        assert(segments_view(segs@) =~= prev.push(seg@));
        row_rendered_len += label_len + 2;
        c_idx += 1;
        assert(segments_view(segs@) =~= keys_segments(kv, sel, c_idx as int));
    }
    if (cols as usize) > row_rendered_len {
        let mut pad = String::new();
        push_repeated(&mut pad, ' ', (cols as usize) - row_rendered_len);
        segs.push(plain_segment(pad));
    }
    assert(segments_view(segs@) =~= grid_line_segments(kv, sel, cols));
    segs
}

/// The keyboard grid, one screen row per grid row from `start_row` down.
pub fn render_keyboard_grid(kb: &KeyboardState, cols: u16, start_row: u16) -> (lines: Vec<ScreenLine>)
    requires
        start_row + current_layout(kb@).len() <= u16::MAX + 1,
    ensures
        lines_view(lines@) == grid_view(kb@, cols, start_row),
{
    let layout = kb.get_layout();
    let ghost lay = current_layout(kb@);
    proof {
        lemma_layout_shape(kb.active_layer, kb.shift_active, kb.ctrl_active);
        lemma_key_widths(kb.active_layer, kb.shift_active, kb.ctrl_active);
    }
    let ghost target = grid_view(kb@, cols, start_row);
    let mut lines: Vec<ScreenLine> = Vec::new();
    let mut r_idx: usize = 0;
    while r_idx < layout.len()
        invariant
            layout@.len() == 4,
            lay == current_layout(kb@),
            lay.len() == 4,
            rows_view(layout@) == lay,
            forall|r: int| 0 <= r < 4 ==> #[trigger] lay[r].len() == 12,
            forall|r: int, c: int| 0 <= r < 4 && 0 <= c < 12 ==> 2 <= #[trigger] key_width(lay[r][c]) <= 18,
            start_row + 4 <= u16::MAX + 1,
            target == grid_view(kb@, cols, start_row),
            0 <= r_idx <= 4,
            lines_view(lines@) == target.take(r_idx as int),
        decreases 4 - r_idx,
    {
        let cur_row: u16 = start_row + r_idx as u16;
        let selected_col = if kb.cursor_row == r_idx { Some(kb.cursor_col) } else { None };
        assert(layout@[r_idx as int]@.map_values(|k: KeyDef| k@) == lay[r_idx as int]);
        let segments = grid_line(&layout[r_idx], Ghost(lay[r_idx as int]), selected_col, cols);
        let line = ScreenLine { row: cur_row, segments };
        assert(line@ == target[r_idx as int]);
        let ghost prev = lines@;
        lines.push(line);
        assert(lines@ == prev.push(line));
        assert(lines_view(lines@) =~= lines_view(prev).push(line@));
        r_idx += 1;
        assert(lines_view(lines@) =~= target.take(r_idx as int));
    }
    assert(target.take(4) =~= target);
    lines
}

// ---------------------------------------------------------------------------
// Legend and whole frame
// ---------------------------------------------------------------------------

pub open spec fn legend_text() -> Seq<char> {
    " [Touch/Click]: Tap Keys  [Direct]: Type normally  [D-Pad]: Nav  [F9]: Switch Mode  [Ctrl+Q]: Exit"@
}

/// Dark yellow on black: the control summary, then blanks up to the screen
/// width.
pub open spec fn legend_view(cols: u16, row: u16) -> LineView {
    LineView {
        row,
        segments: seq![
            styled(Color::Black, Color::DarkYellow, legend_text()),
            styled(Color::Black, Color::DarkYellow, repeat_char(' ', sat_sub(cols as int, encode_utf8(legend_text()).len() as int) as nat)),
        ],
    }
}

pub fn render_legend(cols: u16, row: u16) -> (line: ScreenLine)
    ensures
        line@ == legend_view(cols, row),
{
    let legend = " [Touch/Click]: Tap Keys  [Direct]: Type normally  [D-Pad]: Nav  [F9]: Switch Mode  [Ctrl+Q]: Exit";
    proof {
        reveal_strlit(" [Touch/Click]: Tap Keys  [Direct]: Type normally  [D-Pad]: Nav  [F9]: Switch Mode  [Ctrl+Q]: Exit");
        crate::keyboard::lemma_encode_utf8_len(legend@);
    }
    let legend_len = legend.len();
    let fill_len = if (cols as usize) > legend_len { (cols as usize) - legend_len } else { 0 };
    let mut fill = String::new();
    push_repeated(&mut fill, ' ', fill_len);
    let segments = vec![
        styled_segment(Color::Black, Color::DarkYellow, String::from_str(legend)),
        styled_segment(Color::Black, Color::DarkYellow, fill),
    ];
    let line = ScreenLine { row, segments };
    assert(line@.segments =~= legend_view(cols, row).segments);
    line
}

/// A whole frame: the shell output on top, then the status line, the grid
/// and, where a row is left for it, the legend.
pub open spec fn frame_view(
    rows: Seq<Seq<char>>,
    cursor: (u16, u16),
    hide: bool,
    s: KeyboardView,
    mode: Seq<char>,
    cols: u16,
    screen_rows: u16,
) -> Seq<LineView> {
    let grid_rows = current_layout(s).len() as int;
    let h = shell_height_for(screen_rows as int, grid_rows);
    let legend_row = h + 1 + grid_rows;
    shell_area_view(rows, cols as nat, h as nat, cursor, hide) + seq![status_line_view(s, mode, cols, h as u16)]
        + grid_view(s, cols, (h + 1) as u16) + (if legend_row < screen_rows {
        seq![legend_view(cols, legend_row as u16)]
    } else {
        seq![]
    })
}

pub fn render_frame(
    rows: &Vec<Vec<char>>,
    cursor: (u16, u16),
    hide_cursor: bool,
    kb: &KeyboardState,
    input_mode_name: &str,
    cols: u16,
    screen_rows: u16,
) -> (lines: Vec<ScreenLine>)
    requires
        shell_area_ok(
            char_rows(rows@),
            cols as nat,
            shell_height_for(screen_rows as int, current_layout(kb@).len() as int) as nat,
            cursor,
            hide_cursor,
        ),
        status_used(kb@, input_mode_name@) <= usize::MAX,
    ensures
        lines_view(lines@) == frame_view(char_rows(rows@), cursor, hide_cursor, kb@, input_mode_name@, cols, screen_rows),
{
    proof {
        lemma_layout_shape(kb.active_layer, kb.shift_active, kb.ctrl_active);
    }
    let kb_rows: u16 = 4;
    let shell_height = shell_height(kb, screen_rows);
    let mut lines = render_shell_area(rows, cursor, hide_cursor, cols, shell_height);
    let status_row = shell_height;
    lines.push(render_status_bar(kb, input_mode_name, cols, status_row));
    let kb_start_row = status_row + 1;
    let mut grid = render_keyboard_grid(kb, cols, kb_start_row);
    let ghost before = lines@;
    let ghost grid_lines = grid@;
    lines.append(&mut grid);
    let legend_row = kb_start_row + kb_rows;
    if legend_row < screen_rows {
        lines.push(render_legend(cols, legend_row));
    }
    assert(lines_view(lines@) =~= frame_view(char_rows(rows@), cursor, hide_cursor, kb@, input_mode_name@, cols, screen_rows));
    lines
}

} // verus!
