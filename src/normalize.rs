use vstd::prelude::*;
use crate::message::{MessageView, XSOverlayMessage, NOTIFICATION_POPUP, POPUP_HEIGHT};

verus! {

/// A notification as read from the host notification subsystem.
#[derive(Clone, Debug)]
pub struct NotificationRecord {
    pub id: u32,
    /// The display name of the application that raised it.
    pub app_name: String,
    pub title: String,
    /// The text parts below the title, in order.
    pub body: Vec<String>,
    /// The application's icon, or `None` where fetching it failed.
    pub icon: Option<Vec<u8>>,
}

/// The mathematical value of a [`NotificationRecord`].
pub ghost struct RecordView {
    pub id: u32,
    pub app_name: Seq<char>,
    pub title: Seq<char>,
    pub body: Seq<Seq<char>>,
    pub icon: Option<Seq<u8>>,
}

impl View for NotificationRecord {
    type V = RecordView;

    open spec fn view(&self) -> RecordView {
        RecordView {
            id: self.id,
            app_name: self.app_name@,
            title: self.title@,
            body: self.body@.map_values(|s: String| s@),
            icon: match self.icon {
                Some(b) => Some(b@),
                None => None,
            },
        }
    }
}

/// The text that base64 (standard alphabet, padded) gives for `bytes`.
pub uninterp spec fn base64_of(bytes: Seq<u8>) -> Seq<char>;

/// The length of the padded base64 text of `n` bytes.
pub open spec fn base64_len(n: nat) -> nat {
    4 * ((n + 2) / 3)
}

/// Relies on `base64::encode`, which encodes with the standard alphabet and
/// padding: the text depends on the bytes alone and has four characters for
/// each started group of three bytes. It panics where that length overflows.
#[verifier::external_body]
fn encode_base64(bytes: &Vec<u8>) -> (r: String)
    requires
        base64_len(bytes@.len()) <= usize::MAX,
    ensures
        r@ == base64_of(bytes@),
        r@.len() == base64_len(bytes@.len()),
{
    base64::encode(bytes)
}

/// The keyword that asks the overlay for its default icon or sound.
pub open spec fn default_keyword() -> Seq<char> {
    seq!['d', 'e', 'f', 'a', 'u', 'l', 't']
}

/// The body parts, each followed by a newline.
pub open spec fn joined_lines(parts: Seq<Seq<char>>) -> Seq<char>
    decreases parts.len(),
{
    if parts.len() == 0 {
        Seq::empty()
    } else {
        joined_lines(parts.drop_last()) + parts.last() + seq!['\n']
    }
}

/// The message a record normalises to.
///
/// Where the icon could be fetched it travels as base64 data; where it could
/// not, the icon is the keyword "default" and `use_base64_icon` is false, as
/// the keyword is not base64 data.
pub open spec fn normalized(rec: RecordView, timeout_ms: u64) -> MessageView {
    MessageView {
        message_type: NOTIFICATION_POPUP,
        index: 0,
        timeout_ms: timeout_ms,
        height: POPUP_HEIGHT,
        opacity_percent: 100,
        volume_percent: 70,
        audio_path: default_keyword(),
        title: rec.title,
        content: joined_lines(rec.body),
        use_base64_icon: rec.icon is Some,
        icon: match rec.icon {
            Some(b) => base64_of(b),
            None => default_keyword(),
        },
        source_app: rec.app_name,
    }
}

/// A record whose icon bytes can be encoded without overflow.
pub open spec fn icon_fits(rec: RecordView) -> bool {
    match rec.icon {
        Some(b) => base64_len(b.len()) <= usize::MAX,
        None => true,
    }
}

fn default_text() -> (r: String)
    ensures
        r@ == default_keyword(),
{
    let mut s = String::new();
    s.append("d");
    s.append("e");
    s.append("f");
    s.append("a");
    s.append("u");
    s.append("l");
    s.append("t");
    proof {
        reveal_strlit("d");
        reveal_strlit("e");
        reveal_strlit("f");
        reveal_strlit("a");
        reveal_strlit("u");
        reveal_strlit("l");
        reveal_strlit("t");
    }
    assert(s@ =~= default_keyword());
    s
}

/// The body parts joined into the message content, each part followed by a
/// newline.
pub fn content_of(parts: &Vec<String>) -> (r: String)
    ensures
        r@ == joined_lines(parts@.map_values(|s: String| s@)),
{
    let mut r = String::new();
    let mut i: usize = 0;
    while i < parts.len()
        invariant
            i <= parts.len(),
            r@ == joined_lines(parts@.take(i as int).map_values(|s: String| s@)),
        decreases parts.len() - i,
    {
        let ghost pre = parts@.take(i as int).map_values(|s: String| s@);
        r.append(parts[i].as_str());
        r.append("\n");
        proof {
            reveal_strlit("\n");
            let next = parts@.take(i + 1).map_values(|s: String| s@);
            assert(next.drop_last() =~= pre);
            assert(next.last() == parts@[i as int]@);
        }
        i = i + 1;
    }
    assert(parts@.take(parts.len() as int) =~= parts@);
    r
}

/// Normalises a record into the message sent to the overlay: the title, the
/// body parts as content, the icon as base64 data or, where it could not be
/// fetched, the keyword "default" with `use_base64_icon` false.
pub fn notif_to_message(rec: &NotificationRecord, timeout_ms: u64) -> (r: XSOverlayMessage)
    requires
        icon_fits(rec@),
    ensures
        r@ == normalized(rec@, timeout_ms),
{
    let (use_base64_icon, icon) = match &rec.icon {
        Some(bytes) => (true, encode_base64(bytes)),
        None => (false, default_text()),
    };
    XSOverlayMessage {
        message_type: NOTIFICATION_POPUP,
        index: 0,
        timeout_ms,
        height: POPUP_HEIGHT,
        opacity_percent: 100,
        volume_percent: 70,
        audio_path: default_text(),
        title: rec.title.clone(),
        content: content_of(&rec.body),
        use_base64_icon,
        icon,
        source_app: rec.app_name.clone(),
    }
}

/// Whether the record's icon, if any, has a base64 text whose length fits
/// in memory.
pub fn can_encode_icon(rec: &NotificationRecord) -> (r: bool)
    ensures
        r == icon_fits(rec@),
{
    match &rec.icon {
        None => true,
        Some(bytes) => {
            let n = bytes.len();
            let groups: usize = n / 3 + if n % 3 == 0 { 0 } else { 1 };
            assert((n as int + 2) / 3 == groups as int) by (nonlinear_arith)
                requires
                    groups as int == n as int / 3 + if n as int % 3 == 0 { 0int } else { 1int },
                    n >= 0,
            ;
            groups <= usize::MAX / 4
        },
    }
}

/// What a fetched notification becomes: nothing where fetching it failed
/// (`None`) or where its icon is too large to encode, else its message.
/// A dropped record does not stop the records after it.
pub fn message_for(fetched: Option<NotificationRecord>, timeout_ms: u64) -> (r: Option<XSOverlayMessage>)
    ensures
        fetched is None ==> r is None,
        fetched is Some && !icon_fits(fetched->0@) ==> r is None,
        fetched is Some && icon_fits(fetched->0@) ==> r is Some && r->0@ == normalized(fetched->0@, timeout_ms),
{
    match fetched {
        None => None,
        Some(rec) => {
            if can_encode_icon(&rec) {
                Some(notif_to_message(&rec, timeout_ms))
            } else {
                None
            }
        },
    }
}

impl NotificationRecord {
    /// Builds a record from the text elements of a notification: the first
    /// element, where there is one, is the title (else the title is empty),
    /// and the others, in order, are the body.
    pub fn from_text_elements(
        id: u32,
        app_name: String,
        elements: Vec<String>,
        icon: Option<Vec<u8>>,
    ) -> (r: Self)
        ensures
            r.id == id,
            r.app_name@ == app_name@,
            r.icon == icon,
            elements@.len() == 0 ==> r.title@.len() == 0 && r.body@.len() == 0,
            elements@.len() > 0 ==> r.title@ == elements@[0]@ && r.body@ == elements@.skip(1),
    {
        let mut title = String::new();
        let mut body: Vec<String> = Vec::new();
        let mut i: usize = 0;
        while i < elements.len()
            invariant
                i <= elements.len(),
                i == 0 ==> title@.len() == 0,
                i > 0 ==> title@ == elements@[0]@,
                i == 0 ==> body@.len() == 0,
                i > 0 ==> body@ == elements@.subrange(1, i as int),
            decreases elements.len() - i,
        {
            if i == 0 {
                title = elements[0].clone();
            } else {
                body.push(elements[i].clone());
                assert(body@ =~= elements@.subrange(1, i + 1));
            }
            i = i + 1;
        }
        assert(elements@.len() > 0 ==> elements@.subrange(1, elements@.len() as int) =~= elements@.skip(1));
        NotificationRecord { id, app_name, title, body, icon }
    }
}

/// Normalising is a function of the record and the timeout alone: two
/// messages normalised from the same record agree in every field.
pub proof fn normalization_is_deterministic(
    rec: RecordView,
    timeout_ms: u64,
    first: MessageView,
    second: MessageView,
)
    requires
        first == normalized(rec, timeout_ms),
        second == normalized(rec, timeout_ms),
    ensures
        first == second,
{
}

/// Every record whose icon could not be fetched gets the keyword "default"
/// as its icon, with `use_base64_icon` false; every other one gets its icon
/// as base64 data, with `use_base64_icon` true.
pub proof fn icon_fallback(rec: RecordView, timeout_ms: u64)
    ensures
        rec.icon is None ==> normalized(rec, timeout_ms).icon == default_keyword()
            && !normalized(rec, timeout_ms).use_base64_icon,
        rec.icon is Some ==> normalized(rec, timeout_ms).icon == base64_of(rec.icon->0)
            && normalized(rec, timeout_ms).use_base64_icon,
{
}

} // verus!
