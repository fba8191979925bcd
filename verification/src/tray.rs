//! The tray's display state and its waveform icons.

use vstd::prelude::*;
use crate::app::{AppStatus, WorkerEvent, worker_error_text};
use crate::text::{decimal, decimal_text};

verus! {

/// Side length of a tray icon, in pixels.
pub const WAVE_ICON_SIZE: u32 = 18;
/// Width of one waveform bar, in pixels.
pub const WAVE_BAR_WIDTH: u32 = 2;
/// Gap between waveform bars, in pixels.
pub const WAVE_BAR_GAP: u32 = 1;

/// A solid RGBA color for tray waveform bars.
#[derive(Clone, Copy, Debug, Eq, PartialEq, Structural)]
pub struct WaveColor {
    pub r: u8,
    pub g: u8,
    pub b: u8,
    pub a: u8,
}

impl WaveColor {
    /// Returns the default black menu-bar waveform color.
    pub fn black() -> (c: Self)
        ensures
            c == (WaveColor { r: 0, g: 0, b: 0, a: 255 }),
    {
        WaveColor { r: 0, g: 0, b: 0, a: 255 }
    }

    /// Returns the red listening waveform color.
    pub fn red() -> (c: Self)
        ensures
            c == (WaveColor { r: 255, g: 59, b: 48, a: 255 }),
    {
        WaveColor { r: 255, g: 59, b: 48, a: 255 }
    }
}

/// Channel `k` (red, green, blue, alpha) of a color.
pub open spec fn channel(c: WaveColor, k: int) -> u8 {
    if k == 0 { c.r } else if k == 1 { c.g } else if k == 2 { c.b } else { c.a }
}

/// Whether the pixel at offset (`dx`, `dy`) of a `width` x `height` bar lies
/// inside the bar once its ends are rounded into half circles. Coordinates
/// are doubled so that pixel centres and the radius are whole numbers.
pub open spec fn inside_rounded_bar(dx: int, dy: int, width: int, height: int) -> bool {
    let lx = 2 * dx + 1;
    let ly = 2 * dy + 1;
    let w = width;
    let h2 = 2 * height;
    let inside_core = ly >= w && ly <= h2 - w;
    let in_circle = if ly < w {
        (lx - w) * (lx - w) + (ly - w) * (ly - w) <= w * w
    } else if ly > h2 - w {
        (lx - w) * (lx - w) + (ly - (h2 - w)) * (ly - (h2 - w)) <= w * w
    } else {
        true
    };
    inside_core || in_circle
}

/// Whether a bar placed at (`x`, `y`) covers the icon pixel (`px`, `py`).
pub open spec fn bar_covers(x: int, y: int, width: int, height: int, px: int, py: int) -> bool {
    &&& x <= px < x + width
    &&& y <= py < y + height
    &&& inside_rounded_bar(px - x, py - y, width, height)
}

/// Byte `k` of pixel (`px`, `py`) in a row-major RGBA buffer of side `size`.
pub open spec fn byte_index(size: int, px: int, py: int, k: int) -> int {
    (py * size + px) * 4 + k
}

proof fn lemma_byte_index_unique(size: int, px1: int, py1: int, k1: int, px2: int, py2: int, k2: int)
    requires
        0 <= px1 < size,
        0 <= px2 < size,
        0 <= py1,
        0 <= py2,
        0 <= k1 < 4,
        0 <= k2 < 4,
        byte_index(size, px1, py1, k1) == byte_index(size, px2, py2, k2),
    ensures
        px1 == px2 && py1 == py2 && k1 == k2,
{
    let a = py1 * size + px1;
    let b = py2 * size + px2;
    assert(a == b && k1 == k2);
    if py1 < py2 {
        assert(py1 * size + px1 < py2 * size) by (nonlinear_arith)
            requires
                py1 < py2,
                px1 < size,
                0 <= px1,
        ;
    }
    if py2 < py1 {
        assert(py2 * size + px2 < py1 * size) by (nonlinear_arith)
            requires
                py2 < py1,
                px2 < size,
                0 <= px2,
        ;
    }
}

proof fn lemma_byte_index_bound(size: int, px: int, py: int, k: int)
    requires
        0 <= px < size,
        0 <= py < size,
        0 <= k < 4,
    ensures
        0 <= byte_index(size, px, py, k) < size * size * 4,
{
    assert(py * size + px < size * size) by (nonlinear_arith)
        requires
            0 <= px < size,
            0 <= py < size,
    ;
    assert(0 <= py * size) by (nonlinear_arith)
        requires
            0 <= py,
            0 <= size,
    ;
}

/// The exact form of the rounded-bar test on machine integers.
fn pixel_inside(dx: u64, dy: u64, width: u64, height: u64) -> (r: bool)
    requires
        dx < width <= 0xffff_ffff,
        dy < height <= 0xffff_ffff,
    ensures
        r == inside_rounded_bar(dx as int, dy as int, width as int, height as int),
{
    let lx: i128 = 2 * (dx as i128) + 1;
    let ly: i128 = 2 * (dy as i128) + 1;
    let w: i128 = width as i128;
    let h2: i128 = 2 * (height as i128);
    let inside_core = ly >= w && ly <= h2 - w;
    assert(0 <= (lx - w) * (lx - w) <= 0x4_0000_0000_0000_0000) by (nonlinear_arith)
        requires
            -0x2_0000_0000 <= lx - w <= 0x2_0000_0000,
    ;
    assert(w * w <= 0x1_0000_0000_0000_0000) by (nonlinear_arith)
        requires
            0 <= w <= 0x1_0000_0000,
    ;
    let in_circle = if ly < w {
        assert(0 <= (ly - w) * (ly - w) <= 0x4_0000_0000_0000_0000) by (nonlinear_arith)
            requires
                -0x2_0000_0000 <= ly - w <= 0x2_0000_0000,
        ;
        (lx - w) * (lx - w) + (ly - w) * (ly - w) <= w * w
    } else if ly > h2 - w {
        assert(0 <= (ly - (h2 - w)) * (ly - (h2 - w)) <= 0x4_0000_0000_0000_0000) by (nonlinear_arith)
            requires
                -0x2_0000_0000 <= ly - (h2 - w) <= 0x2_0000_0000,
        ;
        (lx - w) * (lx - w) + (ly - (h2 - w)) * (ly - (h2 - w)) <= w * w
    } else {
        true
    };
    inside_core || in_circle
}

/// Rasterizes a rounded vertical bar into the RGBA icon buffer.
pub fn draw_rounded_bar(
    rgba: &mut Vec<u8>,
    icon_size: u32,
    x: u32,
    y: u32,
    width: u32,
    height: u32,
    color: WaveColor,
)
    requires
        old(rgba)@.len() >= icon_size * icon_size * 4,
        x + width <= u32::MAX,
        y + height <= u32::MAX,
    ensures
        final(rgba)@.len() == old(rgba)@.len(),
        forall|px: int, py: int, k: int|
            0 <= px < icon_size && 0 <= py < icon_size && 0 <= k < 4 ==> #[trigger] final(rgba)@[byte_index(
                icon_size as int,
                px,
                py,
                k,
            )] == if bar_covers(x as int, y as int, width as int, height as int, px, py) {
                channel(color, k)
            } else {
                old(rgba)@[byte_index(icon_size as int, px, py, k)]
            },
        forall|i: int|
            icon_size * icon_size * 4 <= i < old(rgba)@.len() ==> #[trigger] final(rgba)@[i] == old(rgba)@[i],
{
    let ghost start = rgba@;
    let size = icon_size as u64;
    let mut dy: u32 = 0;
    while dy < height
        invariant
            rgba@.len() == start.len(),
            start.len() >= size * size * 4,
            size == icon_size,
            dy <= height,
            x + width <= u32::MAX,
            y + height <= u32::MAX,
            forall|px: int, py: int, k: int|
                0 <= px < size && 0 <= py < size && 0 <= k < 4 ==> #[trigger] rgba@[byte_index(
                    size as int,
                    px,
                    py,
                    k,
                )] == if bar_covers(x as int, y as int, width as int, height as int, px, py) && py
                    < y + dy {
                    channel(color, k)
                } else {
                    start[byte_index(size as int, px, py, k)]
                },
            forall|i: int| size * size * 4 <= i < start.len() ==> #[trigger] rgba@[i] == start[i],
        decreases height - dy,
    {
        let mut dx: u32 = 0;
        while dx < width
            invariant
                rgba@.len() == start.len(),
                start.len() >= size * size * 4,
                size == icon_size,
                dy < height,
                dx <= width,
                x + width <= u32::MAX,
                y + height <= u32::MAX,
                forall|px: int, py: int, k: int|
                    0 <= px < size && 0 <= py < size && 0 <= k < 4 ==> #[trigger] rgba@[byte_index(
                        size as int,
                        px,
                        py,
                        k,
                    )] == if bar_covers(x as int, y as int, width as int, height as int, px, py) && (
                    py < y + dy || (py == y + dy && px < x + dx)) {
                        channel(color, k)
                    } else {
                        start[byte_index(size as int, px, py, k)]
                    },
                forall|i: int| size * size * 4 <= i < start.len() ==> #[trigger] rgba@[i] == start[i],
            decreases width - dx,
        {
            let px: u64 = x as u64 + dx as u64;
            let py: u64 = y as u64 + dy as u64;
            if px < size && py < size && pixel_inside(dx as u64, dy as u64, width as u64, height as u64) {
                proof {
                    lemma_byte_index_bound(size as int, px as int, py as int, 3);
                    lemma_byte_index_bound(size as int, px as int, py as int, 0);
                }
                assert(0 <= (py as int) * (size as int) <= (py as int) * (size as int) + (px as int)
                    < (size as int) * (size as int)) by (nonlinear_arith)
                    requires
                        px < size,
                        py < size,
                ;
                let len = rgba.len();
                assert((size as int) * (size as int) * 4 <= len);
                let idx: usize = ((py * size + px) * 4) as usize;
                let ghost before = rgba@;
                rgba.set(idx, color.r);
                rgba.set(idx + 1, color.g);
                rgba.set(idx + 2, color.b);
                rgba.set(idx + 3, color.a);
                proof {
                    assert forall|qx: int, qy: int, k: int|
                        0 <= qx < size && 0 <= qy < size && 0 <= k < 4 implies #[trigger] rgba@[byte_index(
                            size as int,
                            qx,
                            qy,
                            k,
                        )] == if bar_covers(x as int, y as int, width as int, height as int, qx, qy)
                            && (qy < y + dy || (qy == y + dy && qx < x + dx + 1)) {
                            channel(color, k)
                        } else {
                            start[byte_index(size as int, qx, qy, k)]
                        } by {
                        lemma_byte_index_bound(size as int, qx, qy, k);
                        if qx == px && qy == py {
                        } else {
                            let j = byte_index(size as int, qx, qy, k);
                            if idx <= j < idx + 4 {
                                lemma_byte_index_unique(size as int, qx, qy, k, px as int, py as int, j - idx);
                            }
                            assert(rgba@[j] == before[j]);
                        }
                    }
                    assert forall|i: int| size * size * 4 <= i < start.len() implies #[trigger] rgba@[i] == start[i] by {
                        lemma_byte_index_bound(size as int, px as int, py as int, 3);
                    }
                }
            } else {
                proof {
                    assert forall|qx: int, qy: int, k: int|
                        0 <= qx < size && 0 <= qy < size && 0 <= k < 4 implies #[trigger] rgba@[byte_index(
                            size as int,
                            qx,
                            qy,
                            k,
                        )] == if bar_covers(x as int, y as int, width as int, height as int, qx, qy)
                            && (qy < y + dy || (qy == y + dy && qx < x + dx + 1)) {
                            channel(color, k)
                        } else {
                            start[byte_index(size as int, qx, qy, k)]
                        } by {
                        if qx == px && qy == py {
                            assert(!bar_covers(x as int, y as int, width as int, height as int, qx, qy));
                        }
                    }
                }
            }
            dx = dx + 1;
        }
        dy = dy + 1;
    }
}


/// A waveform bar's drawn height: its preset clamped to 2..=14 pixels.
pub open spec fn bar_height(h: u32) -> int {
    if h > 14 { 14 } else if h < 2 { 2 } else { h as int }
}

/// Left edge of bar `i`: the five bars and their gaps are centred.
pub open spec fn bar_x(i: int) -> int {
    2 + 3 * i
}

/// Top edge of a bar of preset height `h`: bars are centred vertically.
pub open spec fn bar_y(h: u32) -> int {
    (18 - bar_height(h)) / 2
}

/// Whether bar `i` of a waveform covers pixel (`px`, `py`).
pub open spec fn bar_i_covers(heights: Seq<u32>, i: int, px: int, py: int) -> bool {
    bar_covers(bar_x(i), bar_y(heights[i]), 2, bar_height(heights[i]), px, py)
}

/// Whether one of the first `n` bars of a waveform covers a pixel.
pub open spec fn wave_covers(heights: Seq<u32>, n: int, px: int, py: int) -> bool {
    exists|i: int| 0 <= i < n && #[trigger] bar_i_covers(heights, i, px, py)
}

/// A two-pixel-wide bar's rounded ends cover its whole rectangle.
proof fn lemma_narrow_bar_is_full(dx: int, dy: int, height: int)
    requires
        0 <= dx < 2,
        0 <= dy < height,
    ensures
        inside_rounded_bar(dx, dy, 2, height),
{
    let lx = 2 * dx + 1;
    assert((lx - 2) * (lx - 2) == 1) by (nonlinear_arith)
        requires
            lx == 1 || lx == 3,
    ;
    let ly = 2 * dy + 1;
    if ly < 2 {
        assert((ly - 2) * (ly - 2) == 1) by (nonlinear_arith)
            requires
                ly == 1,
        ;
    } else if ly > 2 * height - 2 {
        assert((ly - (2 * height - 2)) * (ly - (2 * height - 2)) == 1) by (nonlinear_arith)
            requires
                ly - (2 * height - 2) == 1,
        ;
    }
}

/// Every waveform bar is two pixels wide, so it covers exactly its
/// rectangle: columns `2 + 3i` and `3 + 3i`, and the rows from its top edge
/// down its clamped height (2 to 14 pixels, centred in the 18-pixel icon).
pub proof fn law_bars_fill_their_rectangles(heights: Seq<u32>, i: int, px: int, py: int)
    requires
        0 <= i < heights.len(),
    ensures
        bar_i_covers(heights, i, px, py) <==> {
            &&& (px == 2 + 3 * i || px == 3 + 3 * i)
            &&& bar_y(heights[i]) <= py < bar_y(heights[i]) + bar_height(heights[i])
        },
        2 <= bar_height(heights[i]) <= 14,
        bar_y(heights[i]) == (18 - bar_height(heights[i])) / 2,
{
    let x = bar_x(i);
    let y = bar_y(heights[i]);
    let h = bar_height(heights[i]);
    if x <= px < x + 2 && y <= py < y + h {
        lemma_narrow_bar_is_full(px - x, py - y, h);
    }
}

/// Renders waveform bars into an RGBA buffer for tray icon creation: the
/// pixels under a bar take the color, all others are transparent.
pub fn render_wave_rgba(bar_heights: [u32; 5], color: WaveColor) -> (rgba: Vec<u8>)
    ensures
        rgba@.len() == 18 * 18 * 4,
        forall|px: int, py: int, k: int|
            0 <= px < 18 && 0 <= py < 18 && 0 <= k < 4 ==> #[trigger] rgba@[byte_index(18, px, py, k)]
                == if wave_covers(bar_heights@, 5, px, py) {
                channel(color, k)
            } else {
                0u8
            },
{
    let mut rgba: Vec<u8> = vec![0u8; 1296];
    let total_width = WAVE_BAR_WIDTH * 5 + WAVE_BAR_GAP * 4;
    let start_x = (WAVE_ICON_SIZE - total_width) / 2;
    let mut index: usize = 0;
    while index < 5
        invariant
            rgba@.len() == 1296,
            index <= 5,
            start_x == 2,
            forall|px: int, py: int, k: int|
                0 <= px < 18 && 0 <= py < 18 && 0 <= k < 4 ==> #[trigger] rgba@[byte_index(18, px, py, k)]
                    == if wave_covers(bar_heights@, index as int, px, py) {
                    channel(color, k)
                } else {
                    0u8
                },
        decreases 5 - index,
    {
        let raw = bar_heights[index];
        let clamped_top = if raw < WAVE_ICON_SIZE - 4 { raw } else { WAVE_ICON_SIZE - 4 };
        let height = if clamped_top > 2 { clamped_top } else { 2 };
        let x = start_x + (index as u32) * (WAVE_BAR_WIDTH + WAVE_BAR_GAP);
        let y = (WAVE_ICON_SIZE - height) / 2;
        assert(height == bar_height(bar_heights@[index as int]));
        let ghost before = rgba@;
        draw_rounded_bar(&mut rgba, WAVE_ICON_SIZE, x, y, WAVE_BAR_WIDTH, height, color);
        assert forall|px: int, py: int, k: int|
            0 <= px < 18 && 0 <= py < 18 && 0 <= k < 4 implies #[trigger] rgba@[byte_index(18, px, py, k)]
                == if wave_covers(bar_heights@, index + 1, px, py) {
                channel(color, k)
            } else {
                0u8
            } by {
            if bar_i_covers(bar_heights@, index as int, px, py) {
                assert(wave_covers(bar_heights@, index + 1, px, py));
            } else {
                if wave_covers(bar_heights@, index + 1, px, py) {
                    let j = choose|j: int| 0 <= j < index + 1 && #[trigger] bar_i_covers(bar_heights@, j, px, py);
                    assert(wave_covers(bar_heights@, index as int, px, py));
                } else {
                    if wave_covers(bar_heights@, index as int, px, py) {
                        let j = choose|j: int| 0 <= j < index && #[trigger] bar_i_covers(bar_heights@, j, px, py);
                        assert(wave_covers(bar_heights@, index + 1, px, py));
                    }
                }
            }
        }
        index = index + 1;
    }
    rgba
}

/// The bar-height presets of each animation frame of a status.
pub open spec fn wave_frames(status: AppStatus) -> Seq<Seq<u32>> {
    match status {
        AppStatus::Initializing => seq![seq![2u32, 3, 4, 3, 2], seq![3u32, 5, 7, 5, 3], seq![2u32, 4, 6, 4, 2]],
        AppStatus::Idle => seq![seq![2u32, 4, 7, 4, 2]],
        AppStatus::Listening => seq![
            seq![3u32, 7, 11, 7, 3],
            seq![5u32, 9, 13, 9, 5],
            seq![7u32, 11, 15, 11, 7],
            seq![5u32, 8, 12, 8, 5],
        ],
        AppStatus::Processing => seq![
            seq![11u32, 5, 3, 3, 3],
            seq![4u32, 11, 5, 3, 3],
            seq![3u32, 4, 11, 5, 3],
            seq![3u32, 3, 4, 11, 5],
            seq![3u32, 3, 3, 5, 11],
        ],
        AppStatus::Error => seq![seq![2u32, 7, 2, 7, 2]],
    }
}

/// Returns the bar-height presets of every animation frame of a status.
pub fn wave_patterns(status: AppStatus) -> (frames: Vec<[u32; 5]>)
    ensures
        frames@.len() == wave_frames(status).len(),
        forall|i: int| 0 <= i < frames@.len() ==> #[trigger] frames@[i]@ == wave_frames(status)[i],
{
    let frames: Vec<[u32; 5]> = match status {
        AppStatus::Initializing => vec![[2, 3, 4, 3, 2], [3, 5, 7, 5, 3], [2, 4, 6, 4, 2]],
        AppStatus::Idle => vec![[2, 4, 7, 4, 2]],
        AppStatus::Listening => vec![[3, 7, 11, 7, 3], [5, 9, 13, 9, 5], [7, 11, 15, 11, 7], [5, 8, 12, 8, 5]],
        AppStatus::Processing => vec![
            [11, 5, 3, 3, 3],
            [4, 11, 5, 3, 3],
            [3, 4, 11, 5, 3],
            [3, 3, 4, 11, 5],
            [3, 3, 3, 5, 11],
        ],
        AppStatus::Error => vec![[2, 7, 2, 7, 2]],
    };
    assert forall|i: int| 0 <= i < frames@.len() implies #[trigger] frames@[i]@ == wave_frames(status)[i] by {
        assert(frames@[i]@ =~= wave_frames(status)[i]);
    }
    frames
}

/// Returns the number of frames in a status animation.
pub fn frame_count(status: AppStatus) -> (n: usize)
    ensures
        n == wave_frames(status).len(),
{
    match status {
        AppStatus::Initializing => 3,
        AppStatus::Idle => 1,
        AppStatus::Listening => 4,
        AppStatus::Processing => 5,
        AppStatus::Error => 1,
    }
}

/// The waveform color of a status: red while listening, black otherwise.
pub fn wave_color(status: AppStatus) -> (c: WaveColor)
    ensures
        c == if status == AppStatus::Listening {
            WaveColor { r: 255, g: 59, b: 48, a: 255 }
        } else {
            WaveColor { r: 0, g: 0, b: 0, a: 255 }
        },
{
    match status {
        AppStatus::Listening => WaveColor::red(),
        _ => WaveColor::black(),
    }
}

/// Whether the tray draws a status icon as a template (tinted by macOS);
/// only the red listening icon keeps its own color.
pub fn icon_is_template(status: AppStatus) -> (t: bool)
    ensures
        t == (status != AppStatus::Listening),
{
    status != AppStatus::Listening
}

/// The status line of the tray menu for a status.
pub open spec fn status_line(status: AppStatus) -> Seq<char> {
    match status {
        AppStatus::Initializing => "Status: Initializing"@,
        AppStatus::Idle => "Status: Idle"@,
        AppStatus::Listening => "Status: Listening"@,
        AppStatus::Processing => "Status: Processing"@,
        AppStatus::Error => "Status: Error"@,
    }
}

/// The label of the toggle menu item for a status.
pub open spec fn toggle_label(status: AppStatus) -> Seq<char> {
    match status {
        AppStatus::Initializing | AppStatus::Idle => "Start Listening"@,
        AppStatus::Listening => "Stop Listening"@,
        AppStatus::Processing => "Processing..."@,
        AppStatus::Error => "Retry Start Listening"@,
    }
}

/// The prompt shown in the status item while a hotkey is being captured.
pub open spec fn capture_prompt() -> Seq<char> {
    "Status: Press a hotkey combo (Escape cancels)"@
}

/// What the tray shows: the status and its icon frame, the remembered status
/// text, and the current texts of the status and toggle menu items.
#[derive(Debug)]
pub struct TrayState {
    pub status: AppStatus,
    pub status_text: String,
    pub status_item_text: String,
    pub toggle_text: String,
    pub animation_frame: usize,
}

impl TrayState {
    /// The tray's invariant: the animation frame is one of the status's frames.
    pub open spec fn wf(self) -> bool {
        self.animation_frame < wave_frames(self.status).len()
    }

    /// The tray of a starting app.
    pub fn new() -> (t: Self)
        ensures
            t.wf(),
            t.status == AppStatus::Initializing,
            t.status_text@ == "Status: Initializing"@,
            t.status_item_text@ == "Status: Initializing"@,
            t.toggle_text@ == "Start Listening"@,
            t.animation_frame == 0,
    {
        TrayState {
            status: AppStatus::Initializing,
            status_text: String::from_str("Status: Initializing"),
            status_item_text: String::from_str("Status: Initializing"),
            toggle_text: String::from_str("Start Listening"),
            animation_frame: 0,
        }
    }

    /// Updates the icon and item labels for a status; the animation restarts.
    pub fn apply_status(&mut self, status: AppStatus)
        ensures
            final(self).wf(),
            final(self).status == status,
            final(self).animation_frame == 0,
            final(self).status_text@ == status_line(status),
            final(self).status_item_text@ == status_line(status),
            final(self).toggle_text@ == toggle_label(status),
    {
        self.status = status;
        self.animation_frame = 0;
        let (line, toggle) = match status {
            AppStatus::Initializing => ("Status: Initializing", "Start Listening"),
            AppStatus::Idle => ("Status: Idle", "Start Listening"),
            AppStatus::Listening => ("Status: Listening", "Stop Listening"),
            AppStatus::Processing => ("Status: Processing", "Processing..."),
            AppStatus::Error => ("Status: Error", "Retry Start Listening"),
        };
        self.status_text = String::from_str(line);
        self.status_item_text = String::from_str(line);
        self.toggle_text = String::from_str(toggle);
    }

    /// Applies a worker notification; returns whether the icon must be redrawn.
    pub fn handle_worker_event(&mut self, event: &WorkerEvent) -> (redraw: bool)
        requires
            old(self).wf(),
        ensures
            final(self).wf(),
            redraw == (event is Status || event is Error),
            match *event {
                WorkerEvent::Status(s) => {
                    &&& final(self).status == s
                    &&& final(self).animation_frame == 0
                    &&& final(self).status_text@ == status_line(s)
                    &&& final(self).status_item_text@ == status_line(s)
                    &&& final(self).toggle_text@ == toggle_label(s)
                },
                WorkerEvent::Error(e) => {
                    &&& final(self).status == AppStatus::Error
                    &&& final(self).animation_frame == 0
                    &&& final(self).status_text@ == "Error: "@ + worker_error_text(e)
                    &&& final(self).status_item_text@ == final(self).status_text@
                    &&& final(self).toggle_text@ == toggle_label(AppStatus::Error)
                },
                WorkerEvent::HotkeyCaptureStarted => {
                    &&& final(self).status == old(self).status
                    &&& final(self).animation_frame == old(self).animation_frame
                    &&& final(self).status_text == old(self).status_text
                    &&& final(self).status_item_text@ == capture_prompt()
                    &&& final(self).toggle_text == old(self).toggle_text
                },
                WorkerEvent::HotkeyCaptureCompleted(_) | WorkerEvent::HotkeyCaptureCancelled
                | WorkerEvent::HotkeyBindingChanged(_) => {
                    &&& final(self).status == old(self).status
                    &&& final(self).animation_frame == old(self).animation_frame
                    &&& final(self).status_text == old(self).status_text
                    &&& final(self).status_item_text@ == old(self).status_text@
                    &&& final(self).toggle_text == old(self).toggle_text
                },
                WorkerEvent::TranscriptReady(n) => {
                    &&& final(self).status == old(self).status
                    &&& final(self).animation_frame == old(self).animation_frame
                    &&& final(self).status_text@ == "Transcript ready ("@ + decimal(n as nat) + " chars)"@
                    &&& final(self).status_item_text@ == final(self).status_text@
                    &&& final(self).toggle_text == old(self).toggle_text
                },
                WorkerEvent::ModelSizeChanged(_) | WorkerEvent::PasteRequested => {
                    &&& final(self).status == old(self).status
                    &&& final(self).animation_frame == old(self).animation_frame
                    &&& final(self).status_text == old(self).status_text
                    &&& final(self).status_item_text == old(self).status_item_text
                    &&& final(self).toggle_text == old(self).toggle_text
                },
            },
    {
        match event {
            WorkerEvent::Status(status) => {
                self.apply_status(*status);
                true
            },
            WorkerEvent::Error(e) => {
                self.apply_status(AppStatus::Error);
                let mut text = String::from_str("Error: ");
                let m = e.message();
                text.append(m.as_str());
                self.status_item_text = text.clone();
                self.status_text = text;
                true
            },
            WorkerEvent::HotkeyCaptureStarted => {
                self.status_item_text = String::from_str("Status: Press a hotkey combo (Escape cancels)");
                false
            },
            WorkerEvent::HotkeyCaptureCompleted(_) | WorkerEvent::HotkeyCaptureCancelled
            | WorkerEvent::HotkeyBindingChanged(_) => {
                self.status_item_text = self.status_text.clone();
                false
            },
            WorkerEvent::TranscriptReady(n) => {
                let mut text = String::from_str("Transcript ready (");
                let digits = decimal_text(*n);
                text.append(digits.as_str());
                text.append(" chars)");
                self.status_item_text = text.clone();
                self.status_text = text;
                false
            },
            WorkerEvent::ModelSizeChanged(_) | WorkerEvent::PasteRequested => false,
        }
    }

    /// Advances the animation of a multi-frame status, wrapping around;
    /// returns whether the icon must be redrawn.
    pub fn advance_animation(&mut self) -> (redraw: bool)
        requires
            old(self).wf(),
        ensures
            final(self).wf(),
            final(self).status == old(self).status,
            redraw == (wave_frames(old(self).status).len() > 1),
            redraw ==> final(self).animation_frame == (old(self).animation_frame + 1) % (wave_frames(
                old(self).status,
            ).len() as int),
            !redraw ==> final(self).animation_frame == old(self).animation_frame,
            final(self).status_text == old(self).status_text,
            final(self).status_item_text == old(self).status_item_text,
            final(self).toggle_text == old(self).toggle_text,
    {
        let n = frame_count(self.status);
        if n <= 1 {
            return false;
        }
        self.animation_frame = (self.animation_frame + 1) % n;
        true
    }
}

} // verus!
