use vstd::prelude::*;

use crate::page::Page;

verus! {

/// How a text item is anchored at its position.
#[derive(Debug, Clone, Copy, PartialEq, Eq, Structural)]
pub enum TextAlign {
    Left,
    Center,
}

/// What a text item of a render pass says. The host formats each content
/// into its final characters; the plan fixes which data is shown where.
#[derive(Debug, Clone, Copy, PartialEq, Eq, Structural)]
pub enum TextContent {
    /// The page indicator: "Page:" followed by the page's label.
    PageIndicator(Page),
    /// The greeting banner: the daemon's name, followed by "running..".
    GreetBanner,
    /// The status line: the drawable surface's width and height.
    DimensionReport { width: u32, height: u32 },
}

/// One piece of text of a render pass: its content, position, anchoring and
/// ink shade.
#[derive(Debug, Clone, Copy, PartialEq, Eq, Structural)]
pub struct TextItem {
    pub content: TextContent,
    pub x: u32,
    pub y: u32,
    pub align: TextAlign,
    /// The gray shade the text is drawn in; zero is black.
    pub shade: u8,
}

/// One render pass, fully decided: clear the surface to `clear_shade`, draw
/// every item in order, then flush to the physical output.
#[derive(Debug, Clone, PartialEq, Eq)]
pub struct RenderPlan {
    /// The gray shade the surface is cleared to; 255 is white.
    pub clear_shade: u8,
    pub items: Vec<TextItem>,
}

/// The daemon's name, as shown in the greeting banner and used for its side
/// files.
pub fn daemon_name() -> (r: &'static str)
    ensures
        r@ == "pb-devtools-daemon"@,
{
    "pb-devtools-daemon"
}

/// The centered coordinate of an axis of `n` pixels, as the drawing
/// collaborator anchors centered text.
pub open spec fn center_coord_spec(n: u32) -> int {
    if n == 0 {
        0
    } else {
        (n - 1) as int / 2
    }
}

/// The centered coordinate of an axis of `n` pixels.
pub fn center_coord(n: u32) -> (r: u32)
    ensures
        r == center_coord_spec(n),
{
    if n == 0 {
        0
    } else {
        (n - 1) / 2
    }
}

/// Decide one render pass for a page on a surface of `width` by `height`
/// pixels: clear to white, draw the page indicator at the top left (20
/// pixels down), then the page's own content — the greeting banner on the
/// greeting page, the surface dimensions on the status page — centered, all
/// in black ink.
pub fn paint_plan(page: Page, width: u32, height: u32) -> (plan: RenderPlan)
    ensures
        plan.clear_shade == 0xff,
        plan.items@.len() == 2,
        plan.items@[0] == (TextItem {
            content: TextContent::PageIndicator(page),
            x: 0,
            y: 20,
            align: TextAlign::Left,
            shade: 0,
        }),
        plan.items@[1].x == center_coord_spec(width),
        plan.items@[1].y == center_coord_spec(height),
        plan.items@[1].align == TextAlign::Center,
        plan.items@[1].shade == 0,
        page == Page::Greet ==> plan.items@[1].content == TextContent::GreetBanner,
        page == Page::Status ==> plan.items@[1].content == (TextContent::DimensionReport {
            width,
            height,
        }),
{
    let mut items: Vec<TextItem> = Vec::new();
    items.push(
        TextItem {
            content: TextContent::PageIndicator(page),
            x: 0,
            y: 20,
            align: TextAlign::Left,
            shade: 0,
        },
    );
    let body = match page {
        Page::Greet => TextContent::GreetBanner,
        Page::Status => TextContent::DimensionReport { width, height },
    };
    items.push(
        TextItem {
            content: body,
            x: center_coord(width),
            y: center_coord(height),
            align: TextAlign::Center,
            shade: 0,
        },
    );
    RenderPlan { clear_shade: 0xff, items }
}

} // verus!
