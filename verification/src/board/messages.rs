//! What the board is told, and what it tells the rest of the application.
use vstd::prelude::*;
use crate::input::{KeyEventMsg, Modifiers, MouseButton, MouseEventMsg, MouseEventType};
use crate::math::Vec2D;
use crate::pixels::Pixbuf;
use crate::style::{Color, Size, Style};
use crate::text::{decimal, decimal_spec};
use crate::tools::arrow::ArrowStyle;
use crate::tools::blur::BlurStyle;
use crate::tools::crop::{AspectRatio, CropBgColor};
use crate::tools::highlight::HighlighterStyle;
use crate::tools::{DrawableId, TextBackground, Tools};

verus! {

/// What to do with a rendered image.
#[derive(Clone, Copy, Debug, PartialEq, Eq, Structural)]
pub enum Action {
    SaveToClipboard,
    SaveToFile,
    SaveToFileAs,
    CopyFilepathToClipboard,
    Exit,
}

/// Where a layer moves in the stack.
#[derive(Clone, Copy, Debug, PartialEq, Eq, Structural)]
pub enum PanelMoveDir {
    ToTop,
    Up,
    Down,
    ToBottom,
}

/// What several selected drawables say of their smoothing.
#[derive(Clone, Copy, Debug, PartialEq, Eq, Structural)]
pub enum SmoothLevelMulti {
    /// Some of them cannot be smoothed.
    NotApplicable,
    /// All have this level.
    Shared(usize),
    /// They differ.
    Mixed,
}

/// A request to zoom. Scales are in millionths.
#[derive(Clone, Copy, Debug, PartialEq, Eq, Structural)]
pub enum ZoomCommand {
    In,
    Out,
    FitCanvas,
    Abs(i64),
}

/// Where the image lies under the window, in sub-units.
#[derive(Clone, Copy, Debug, PartialEq, Eq, Structural)]
pub struct PanInfo {
    pub drag_x: i64,
    pub drag_y: i64,
    pub image_w_scaled: i64,
    pub image_h_scaled: i64,
    pub canvas_w: i64,
    pub canvas_h: i64,
}

/// A short notice.
#[derive(Clone, Copy, Debug, PartialEq, Eq, Structural)]
pub enum Toast {
    Fill(bool),
    Arrow(ArrowStyle),
    Highlighter(HighlighterStyle),
    Blur(BlurStyle),
    Text(TextBackground),
    /// The size factor of annotations, in tenths.
    AnnotationSize(i64),
}

impl Toast {
    /// The text of the notice.
    pub open spec fn text_spec(self) -> Seq<char> {
        match self {
            Toast::Fill(true) => "Fill shape"@,
            Toast::Fill(false) => "No fill"@,
            Toast::Arrow(s) => "Arrow: "@ + s.display_name_spec()@,
            Toast::Highlighter(s) => "Highlighter: "@ + s.display_name_spec()@,
            Toast::Blur(s) => "Blur: "@ + s.display_name_spec()@,
            Toast::Text(s) => "Text: "@ + s.display_name_spec()@,
            Toast::AnnotationSize(tenths) => "Annotation size: "@ + decimal_spec(
                (tenths / 10) as nat,
            ) + seq!['.'] + decimal_spec((tenths % 10) as nat) + seq!['\u{d7}'],
        }
    }

    /// The text of the notice.
    pub fn text(self) -> (r: String)
        requires
            self matches Toast::AnnotationSize(tenths) ==> tenths >= 0,
        ensures
            r@ == self.text_spec(),
    {
        match self {
            Toast::Fill(true) => "Fill shape".to_owned(),
            Toast::Fill(false) => "No fill".to_owned(),
            Toast::Arrow(s) => "Arrow: ".to_owned().concat(s.display_name()),
            Toast::Highlighter(s) => "Highlighter: ".to_owned().concat(s.display_name()),
            Toast::Blur(s) => "Blur: ".to_owned().concat(s.display_name()),
            Toast::Text(s) => "Text: ".to_owned().concat(s.display_name()),
            Toast::AnnotationSize(tenths) => {
                let mut s: String = "Annotation size: ".to_owned().concat(
                    decimal((tenths / 10) as u64).as_str(),
                );
                let ghost head = s@;
                s.push('.');
                assert(s@ =~= head + seq!['.']);
                let mut s: String = s.concat(decimal((tenths % 10) as u64).as_str());
                let ghost body = s@;
                s.push('\u{d7}');
                assert(s@ =~= body + seq!['\u{d7}']);
                s
            },
        }
    }
}

/// What the board tells the rest of the application. Factors are in
/// millionths, lengths in sub-units.
#[derive(Clone, Copy, Debug, PartialEq, Eq)]
#[allow(inconsistent_fields)]
pub enum SketchBoardOutput {
    ToggleToolbarsDisplay,
    ToolSwitchShortcut(Tools),
    ColorSwitchShortcut(u64),
    DimensionsUpdate(Option<(i32, i32)>),
    ZoomChanged(i64),
    CropPresenceChanged(bool),
    PanChanged(PanInfo),
    SelectionStyleChanged(Option<Style>),
    SelectionMultiAgreement { size: Option<Size>, smooth: SmoothLevelMulti },
    ToolSizeChanged(Size),
    ContentSizeChanged { width: i64, height: i64 },
    ImageDimensionsChanged { width: i32, height: i32 },
    FillShapesChanged(bool),
    CropEditDimensions { width: i32, height: i32 },
    FocusTopBarStart,
    FocusBottomBarEnd,
    FocusZoom,
    OpenPreferences,
    OpenWelcomeDialog,
    AnnotationFactorChanged(i64),
    ArrowStyleCycled(ArrowStyle),
    BlurStyleCycled(BlurStyle),
    TextBackgroundCycled(TextBackground),
    HighlighterStyleCycled(HighlighterStyle),
    ShowCycleToast(Toast),
    SelectionTextBackgroundChanged(TextBackground),
    SelectionArrowStyleChanged(ArrowStyle),
    SelectionBlurStyleChanged(BlurStyle),
    SelectionBrushPostSmoothChanged(usize),
    SpotlightDarknessReset(i64),
    HighlighterOpacityReset(i64),
    BrushPostSmoothReset(usize),
}

/// A span of text that an input method is still composing.
#[derive(Clone, Copy, Debug, PartialEq, Eq, Structural)]
pub struct PreeditSpan {
    pub start: usize,
    pub end: usize,
    pub selected: bool,
    pub underlined: bool,
}

/// Text from an input method.
#[derive(Debug)]
pub enum TextEventMsg {
    Commit(String),
    Preedit { text: String, cursor_chars: Option<usize>, spans: Vec<PreeditSpan> },
    PreeditEnd,
}

/// An event for the tools.
#[derive(Debug)]
pub enum InputEvent {
    Mouse(MouseEventMsg),
    Key(KeyEventMsg),
    KeyRelease(KeyEventMsg),
    Text(TextEventMsg),
}

/// What the toolbars ask for. Factors are in millionths.
#[derive(Clone, Copy, Debug, PartialEq, Eq, Structural)]
#[allow(inconsistent_fields)]
pub enum ToolbarEvent {
    ToolSelected(Tools),
    ColorSelected(Color),
    SizeSelected(Size),
    SaveFile,
    CopyClipboard,
    Undo,
    Redo,
    Reset,
    ToggleFill,
    SaveFileAs,
    OpenPreferences,
    ToggleLayerPanel,
    FocusCanvas,
    ArrowStyleSelected(ArrowStyle),
    HighlighterStyleSelected(HighlighterStyle),
    BlurStyleSelected(BlurStyle),
    SnapToEdgesChanged(bool),
    SpotlightDarknessChanged(i64),
    HighlighterOpacityChanged(i64),
    SaveSpotlightDarknessAsDefault,
    SaveHighlighterOpacityAsDefault,
    BrushPostSmoothChanged(usize),
    SaveBrushPostSmoothAsDefault(usize),
    SaveFillAsDefault,
    TextBackgroundSelected(TextBackground),
    RevertCrop,
    CancelCrop,
    ApplyCrop,
    FocusZoom,
    CropAspectRatioChanged(AspectRatio),
    CropDimensionsSet { width: i32, height: i32 },
    CropBgColorChanged(CropBgColor),
    FlipHorizontal,
    RotateImage,
    ResizeImage { width: i32, height: i32 },
}

/// What the board is told. Factors are in millionths, lengths in sub-units.
#[derive(Debug)]
pub enum SketchBoardInput {
    InputEvent(InputEvent),
    ToolbarEvent(ToolbarEvent),
    RenderResult(Pixbuf, Vec<Action>),
    RenderResultFollowup(Option<Pixbuf>, Vec<Action>, Option<String>),
    CommitEvent(TextEventMsg),
    Refresh,
    Exit,
    ScaleFactorChanged,
    ZoomDisplayChanged(i64),
    PanDisplayChanged(PanInfo),
    ScrollbarSet(bool, i64),
    PinchZoom(i64),
    ZoomCommand(ZoomCommand),
    FocusCanvas,
    ExitCropToPreviousTool,
    SyncFillToToolbar,
    SetAnnotationFactor(i64),
    ToggleLayerPanel,
    PanelSelectDrawable { id: DrawableId, additive: bool },
    PanelToggleVisible(DrawableId),
    PanelToggleLocked(DrawableId),
    PanelMoveDrawable { id: DrawableId, direction: PanelMoveDir },
    PanelMoveSelected(PanelMoveDir),
    PanelReorderTo(Vec<DrawableId>),
    PanelDropOnto { src: DrawableId, target: DrawableId, above_target: bool },
    PanelEditColor(DrawableId),
    PanelSetColor { id: DrawableId, color: Color },
    PanelRename { id: DrawableId, name: String },
    LayerPanelWidthChanged(i64),
    PasteImageFromClipboard(Pixbuf),
    Output(SketchBoardOutput),
}

impl SketchBoardInput {
    pub fn new_mouse_event(
        event_type: MouseEventType,
        button: u32,
        n_pressed: i32,
        modifier: Modifiers,
        pos: Vec2D,
        release: bool,
    ) -> (r: SketchBoardInput)
        ensures
            r == SketchBoardInput::InputEvent(
                InputEvent::Mouse(
                    MouseEventMsg {
                        type_: event_type,
                        button: MouseButton::of_number(button),
                        modifier,
                        pos,
                        n_pressed,
                        release,
                    },
                ),
            ),
    {
        SketchBoardInput::InputEvent(
            InputEvent::Mouse(
                MouseEventMsg {
                    type_: event_type,
                    button: MouseButton::from(button),
                    modifier,
                    pos,
                    n_pressed,
                    release,
                },
            ),
        )
    }

    pub fn new_key_event(event: KeyEventMsg) -> (r: SketchBoardInput)
        ensures
            r == SketchBoardInput::InputEvent(InputEvent::Key(event)),
    {
        SketchBoardInput::InputEvent(InputEvent::Key(event))
    }

    pub fn new_key_release_event(event: KeyEventMsg) -> (r: SketchBoardInput)
        ensures
            r == SketchBoardInput::InputEvent(InputEvent::KeyRelease(event)),
    {
        SketchBoardInput::InputEvent(InputEvent::KeyRelease(event))
    }

    pub fn new_text_event(event: TextEventMsg) -> (r: SketchBoardInput)
        ensures
            r == SketchBoardInput::InputEvent(InputEvent::Text(event)),
    {
        SketchBoardInput::InputEvent(InputEvent::Text(event))
    }

    pub fn new_commit_event(event: TextEventMsg) -> (r: SketchBoardInput)
        ensures
            r == SketchBoardInput::CommitEvent(event),
    {
        SketchBoardInput::CommitEvent(event)
    }

    /// A scroll by `(delta_x, delta_y)` notches, in sub-units.
    pub fn new_pan_scroll_event(delta_x: i64, delta_y: i64, modifier: Modifiers) -> (r:
        SketchBoardInput)
        ensures
            r == SketchBoardInput::InputEvent(
                InputEvent::Mouse(
                    MouseEventMsg {
                        type_: MouseEventType::PanScroll,
                        button: MouseButton::Middle,
                        modifier,
                        pos: Vec2D { x: delta_x, y: delta_y },
                        n_pressed: 0,
                        release: false,
                    },
                ),
            ),
    {
        SketchBoardInput::InputEvent(
            InputEvent::Mouse(
                MouseEventMsg {
                    type_: MouseEventType::PanScroll,
                    button: MouseButton::Middle,
                    modifier,
                    pos: Vec2D::new(delta_x, delta_y),
                    n_pressed: 0,
                    release: false,
                },
            ),
        )
    }

    pub fn new_pinch_zoom_event(factor: i64) -> (r: SketchBoardInput)
        ensures
            r == SketchBoardInput::PinchZoom(factor),
    {
        SketchBoardInput::PinchZoom(factor)
    }
}

/// A scroll as the board takes it: inverted where the user wants it so, and a
/// vertical scroll with only Shift held turned sideways.
pub open spec fn scroll_deltas_spec(dx: int, dy: int, modifier: Modifiers, invert: bool) -> (int, int) {
    let (x, y) = if invert {
        (-dx, -dy)
    } else {
        (dx, dy)
    };
    if modifier.shift && !modifier.control && !modifier.alt && x == 0 {
        (y, 0)
    } else {
        (x, y)
    }
}

/// The scroll that the board is told of when the wheel moved by `(dx, dy)`.
pub fn scroll_deltas(dx: i64, dy: i64, modifier: Modifiers, invert: bool) -> (r: (i64, i64))
    requires
        dx > i64::MIN,
        dy > i64::MIN,
    ensures
        (r.0 as int, r.1 as int) == scroll_deltas_spec(dx as int, dy as int, modifier, invert),
{
    let (x, y): (i64, i64) = if invert {
        (-dx, -dy)
    } else {
        (dx, dy)
    };
    if modifier.shift && !modifier.control && !modifier.alt && x == 0 {
        (y, 0)
    } else {
        (x, y)
    }
}

/// How far a pinch gesture zoomed since the last event: the ratio of the two
/// scales. Nothing for scales that are not positive. In millionths.
pub fn pinch_factor(previous: i64, scale: i64) -> (r: Option<i64>)
    requires
        scale <= 0x1_0000_0000_0000,
        previous <= 0x1_0000_0000_0000,
        previous > 0 && scale > 0 ==> crate::units::div_round_spec(
            scale * crate::units::MICRO,
            previous as int,
        ) <= i64::MAX,
    ensures
        r is Some == (previous > 0 && scale > 0),
        r matches Some(f) ==> f == crate::units::div_round_spec(
            scale * crate::units::MICRO,
            previous as int,
        ),
{
    if scale <= 0 || previous <= 0 {
        return None;
    }
    proof {
        assert(scale * crate::units::MICRO >= 0) by (nonlinear_arith)
            requires
                scale > 0,
                crate::units::MICRO == 1_000_000,
        ;
        crate::tools::lemma_div_round_nonneg(scale * crate::units::MICRO, previous as int);
    }
    Some(crate::units::mul_div(scale, crate::units::MICRO, previous))
}

} // verus!
