use vstd::prelude::*;

verus! {

/// The kind of message that shows a notification popup.
pub const NOTIFICATION_POPUP: i32 = 1;

/// The height a popup with content expands to.
pub const POPUP_HEIGHT: u32 = 175;

/// The message sent to the overlay, one datagram each.
///
/// The overlay reads `timeout` in seconds, `opacity` and `volume` as
/// fractions of one; this type holds them as whole milliseconds and
/// percentages, and the wire form divides them out.
#[derive(Clone, Debug)]
pub struct XSOverlayMessage {
    /// 1 shows a notification popup, 2 media player information.
    pub message_type: i32,
    /// Used by media player messages only: the icon on the wrist.
    pub index: i32,
    /// How long the popup stays on screen, in milliseconds.
    pub timeout_ms: u64,
    /// The height the popup expands to when it has content.
    pub height: u32,
    /// Opacity of the popup, in percent.
    pub opacity_percent: u32,
    /// Volume of the notification sound, in percent.
    pub volume_percent: u32,
    /// A keyword ("default", "error", "warning") or the path of a sound file.
    pub audio_path: String,
    pub title: String,
    pub content: String,
    /// Whether `icon` holds base64 image data rather than a keyword or path.
    pub use_base64_icon: bool,
    pub icon: String,
    /// The display name of the application that raised the notification.
    pub source_app: String,
}

/// The mathematical value of an [`XSOverlayMessage`].
pub ghost struct MessageView {
    pub message_type: i32,
    pub index: i32,
    pub timeout_ms: u64,
    pub height: u32,
    pub opacity_percent: u32,
    pub volume_percent: u32,
    pub audio_path: Seq<char>,
    pub title: Seq<char>,
    pub content: Seq<char>,
    pub use_base64_icon: bool,
    pub icon: Seq<char>,
    pub source_app: Seq<char>,
}

impl View for XSOverlayMessage {
    type V = MessageView;

    open spec fn view(&self) -> MessageView {
        MessageView {
            message_type: self.message_type,
            index: self.index,
            timeout_ms: self.timeout_ms,
            height: self.height,
            opacity_percent: self.opacity_percent,
            volume_percent: self.volume_percent,
            audio_path: self.audio_path@,
            title: self.title@,
            content: self.content@,
            use_base64_icon: self.use_base64_icon,
            icon: self.icon@,
            source_app: self.source_app@,
        }
    }
}

} // verus!
