use vstd::prelude::*;
use crate::media::text_opt;
use crate::text::{chars_of, dec, dec2, dec2_chars, dec_chars, extend_chars, extend_str, string_of};

verus! {

// ---------------------------------------------------------------------------
// The pairing QR code
// ---------------------------------------------------------------------------

/// The modules (true = dark) of the QR code that qrcodegen makes for `text`
/// at medium error correction, row by row, or `None` when the text does not fit.
pub uninterp spec fn qr_modules(text: Seq<char>) -> Option<Seq<Seq<bool>>>;

/// The rows of a module grid, as plain sequences.
pub open spec fn grid_view(rows: Seq<Vec<bool>>) -> Seq<Seq<bool>> {
    rows.map_values(|r: Vec<bool>| r@)
}

/// A square grid whose side is a QR code size.
pub open spec fn qr_shaped(g: Seq<Seq<bool>>) -> bool {
    &&& 21 <= g.len() <= 177
    &&& forall|y: int| 0 <= y < g.len() ==> #[trigger] g[y].len() == g.len()
}

/// Calls `qrcodegen::QrCode::encode_text` at `QrCodeEcc::Medium` and reads the
/// module grid with `QrCode::size` and `QrCode::get_module`. Claims the grid is
/// the named one for the text, and, as qrcodegen documents, square with a side
/// between 21 and 177; `None` when the text does not fit in any version.
#[verifier::external_body]
fn encode_qr(value: &str) -> (r: Option<Vec<Vec<bool>>>)
    ensures
        r matches Some(rows) ==> qr_modules(value@) == Some(grid_view(rows@)) && qr_shaped(grid_view(rows@)),
        r is None ==> qr_modules(value@) is None,
{
    match qrcodegen::QrCode::encode_text(value, qrcodegen::QrCodeEcc::Medium) {
        Ok(code) => Some((0..code.size()).map(|y| (0..code.size()).map(|x| code.get_module(x, y)).collect()).collect()),
        Err(_) => None,
    }
}

/// A QR code: its square grid of modules (true = dark).
pub struct QrGrid {
    pub rows: Vec<Vec<bool>>,
}

/// The QR code for a pairing link, or `Err` when the link is too long for one.
pub fn qr_code(value: &str) -> (r: Result<QrGrid, ()>)
    ensures
        r matches Ok(g) ==> qr_modules(value@) == Some(grid_view(g.rows@)) && qr_shaped(grid_view(g.rows@)),
        r is Err ==> qr_modules(value@) is None,
{
    match encode_qr(value) {
        Some(rows) => Ok(QrGrid { rows }),
        None => Err(()),
    }
}

/// The quiet-zone width around a QR code, in modules.
pub const QR_BORDER: usize = 4;

/// The dark modules of the first `n` cells in row-major order, each as the
/// position of its unit square in the drawing (shifted by the border).
pub open spec fn dark_cells(g: Seq<Seq<bool>>, n: int) -> Seq<(usize, usize)>
    decreases n,
{
    if n <= 0 || g.len() == 0 {
        Seq::empty()
    } else {
        let k = n - 1;
        let x = k % (g.len() as int);
        let y = k / (g.len() as int);
        if g[y][x] {
            dark_cells(g, k).push(((x + 4) as usize, (y + 4) as usize))
        } else {
            dark_cells(g, k)
        }
    }
}

/// How to draw a QR code: the side of the drawing and the squares to fill.
pub open spec fn qr_drawing_of(g: Seq<Seq<bool>>) -> (usize, Seq<(usize, usize)>) {
    ((g.len() + 8) as usize, dark_cells(g, (g.len() * g.len()) as int))
}

/// The drawing of a QR code: the side of the view box (code plus border on
/// each side) and the squares of the dark modules, row by row.
pub fn qr_drawing(code: &QrGrid) -> (r: (usize, Vec<(usize, usize)>))
    requires
        qr_shaped(grid_view(code.rows@)),
    ensures
        (r.0, r.1@) == qr_drawing_of(grid_view(code.rows@)),
{
    let ghost g = grid_view(code.rows@);
    let size = code.rows.len();
    let mut cells: Vec<(usize, usize)> = Vec::new();
    let mut y: usize = 0;
    while y < size
        invariant
            size == code.rows.len(),
            g == grid_view(code.rows@),
            qr_shaped(g),
            y <= size,
            cells@ == dark_cells(g, (y * size) as int),
        decreases size - y,
    {
        let row = &code.rows[y];
        assert(row@ == g[y as int]);
        let mut x: usize = 0;
        while x < size
            invariant
                size == code.rows.len(),
                g == grid_view(code.rows@),
                qr_shaped(g),
                y < size,
                x <= size,
                row@ == g[y as int],
                cells@ == dark_cells(g, (y * size + x) as int),
            decreases size - x,
        {
            let ghost k: int = y * size + x;
            assert(k % (size as int) == x as int && k / (size as int) == y as int) by (nonlinear_arith)
                requires
                    k == y * size + x,
                    x < size,
                    0 <= y,
            ;
            assert(g.len() == size);
            if row[x] {
                cells.push((x + QR_BORDER, y + QR_BORDER));
            }
            x = x + 1;
        }
        assert(y * size + size == (y + 1) * size) by (nonlinear_arith);
        y = y + 1;
    }
    (size + 2 * QR_BORDER, cells)
}

/// The opening of the QR drawing's SVG: its view box of side `v` and a white
/// background.
pub open spec fn svg_head(v: nat) -> Seq<char> {
    "<svg class=\"light-phone-qr\" viewBox=\"0 0 "@ + dec(v) + seq![' '] + dec(v)
        + "\" role=\"img\" aria-label=\"Light Phone pairing QR code\" shape-rendering=\"crispEdges\"><rect width=\""@
        + dec(v) + "\" height=\""@ + dec(v) + "\" fill=\"#fff\" />"@
}

/// The black unit square of one dark module.
pub open spec fn svg_cell(x: nat, y: nat) -> Seq<char> {
    "<rect x=\""@ + dec(x) + "\" y=\""@ + dec(y) + "\" width=\"1\" height=\"1\" fill=\"#000\" />"@
}

/// The squares of the dark modules, in order.
pub open spec fn svg_cells(cells: Seq<(usize, usize)>) -> Seq<char>
    decreases cells.len(),
{
    if cells.len() == 0 {
        Seq::empty()
    } else {
        svg_cells(cells.drop_last()) + svg_cell(cells.last().0 as nat, cells.last().1 as nat)
    }
}

/// The SVG markup of a QR drawing.
pub open spec fn svg_of(d: (usize, Seq<(usize, usize)>)) -> Seq<char> {
    svg_head(d.0 as nat) + svg_cells(d.1) + "</svg>"@
}

/// The SVG markup of a QR code: the drawing's view box, a white background,
/// and a black unit square per dark module.
pub fn qr_svg_markup(code: &QrGrid) -> (s: String)
    requires
        qr_shaped(grid_view(code.rows@)),
    ensures
        s@ == svg_of(qr_drawing_of(grid_view(code.rows@))),
{
    let (side, cells) = qr_drawing(code);
    let mut v = chars_of("<svg class=\"light-phone-qr\" viewBox=\"0 0 ");
    let d = dec_chars(side as u64);
    extend_chars(&mut v, d.as_slice());
    v.push(' ');
    extend_chars(&mut v, d.as_slice());
    extend_str(&mut v, "\" role=\"img\" aria-label=\"Light Phone pairing QR code\" shape-rendering=\"crispEdges\"><rect width=\"");
    extend_chars(&mut v, d.as_slice());
    extend_str(&mut v, "\" height=\"");
    extend_chars(&mut v, d.as_slice());
    extend_str(&mut v, "\" fill=\"#fff\" />");
    let ghost head = v@;
    assert(head == svg_head(side as nat));
    let mut i: usize = 0;
    while i < cells.len()
        invariant
            i <= cells.len(),
            v@ == head + svg_cells(cells@.take(i as int)),
        decreases cells.len() - i,
    {
        let (x, y) = cells[i];
        let ghost before = v@;
        extend_str(&mut v, "<rect x=\"");
        extend_chars(&mut v, dec_chars(x as u64).as_slice());
        extend_str(&mut v, "\" y=\"");
        extend_chars(&mut v, dec_chars(y as u64).as_slice());
        extend_str(&mut v, "\" width=\"1\" height=\"1\" fill=\"#000\" />");
        assert(cells@.take(i + 1).drop_last() =~= cells@.take(i as int));
        assert(v@ =~= before + svg_cell(x as nat, y as nat));
        i = i + 1;
    }
    assert(cells@.take(cells.len() as int) =~= cells@);
    extend_str(&mut v, "</svg>");
    string_of(v.as_slice())
}

/// The time left on a pairing code, as `MM:SS` (never negative).
pub open spec fn remaining_of(seconds: int) -> Seq<char> {
    let s = if seconds < 0 { 0 } else { seconds };
    dec2((s / 60) as nat) + seq![':'] + dec2((s % 60) as nat)
}

/// The time left on a pairing code, as `MM:SS`.
pub fn format_remaining(seconds: i64) -> (s: String)
    ensures
        s@ == remaining_of(seconds as int),
{
    let secs: u64 = if seconds < 0 { 0 } else { seconds as u64 };
    let mut v = dec2_chars(secs / 60);
    v.push(':');
    let r = dec2_chars(secs % 60);
    extend_chars(&mut v, r.as_slice());
    string_of(v.as_slice())
}

// ---------------------------------------------------------------------------
// Pairing
// ---------------------------------------------------------------------------

/// The second count chrono reads from an RFC 3339 date and time, or `None`
/// when the text is not one (`DateTime::parse_from_rfc3339`, `DateTime::timestamp`).
pub uninterp spec fn rfc3339_seconds(text: Seq<char>) -> Option<i64>;

/// Calls `chrono::DateTime::parse_from_rfc3339` and `DateTime::timestamp`;
/// claims the result is the named reading of the text.
#[verifier::external_body]
fn parse_rfc3339(text: &str) -> (r: Option<i64>)
    ensures
        r == rfc3339_seconds(text@),
{
    match chrono::DateTime::parse_from_rfc3339(text) {
        Ok(d) => Some(d.timestamp()),
        Err(_) => None,
    }
}

/// What the server says about the current pairing session.
#[derive(Clone, Copy, Debug, PartialEq, Eq, Structural)]
pub enum PairingStatus {
    /// The server holds no pairing session.
    NoSession,
    Pending,
    Connected,
    Expired,
}

/// A pairing code on offer.
#[derive(Clone, Debug, PartialEq)]
pub struct PairingOffer {
    pub pairing_uri: String,
    pub expires_at: i64,
}

/// The state of the Light Phone pairing panel.
pub struct PairingState {
    pub offer: Option<PairingOffer>,
    pub loading: bool,
    pub error: Option<String>,
    pub connected: bool,
    pub server_expired: bool,
    /// Counts the pairing codes requested; answers to polls of older codes are ignored.
    pub epoch: u64,
}

/// The panel before anything happened.
pub fn pairing_start() -> (s: PairingState)
    ensures
        s.offer is None && !s.loading && s.error is None && !s.connected && !s.server_expired && s.epoch == 0,
{
    PairingState { offer: None, loading: false, error: None, connected: false, server_expired: false, epoch: 0 }
}

/// A new code is requested: earlier polls become stale and the panel resets.
pub fn on_generate(state: &mut PairingState)
    requires
        old(state).epoch < u64::MAX,
    ensures
        final(state).epoch == old(state).epoch + 1,
        final(state).offer is None,
        final(state).error is None,
        final(state).loading,
        !final(state).connected,
        !final(state).server_expired,
{
    state.epoch = state.epoch + 1;
    state.offer = None;
    state.error = None;
    state.loading = true;
    state.connected = false;
    state.server_expired = false;
}

/// A poll answer for the code requested at `epoch`. Stale answers change nothing;
/// a connection clears the code; an expired or missing session marks it expired.
pub fn on_poll_status(state: &mut PairingState, epoch: u64, status: PairingStatus)
    ensures
        epoch != old(state).epoch || status == PairingStatus::Pending ==> {
            &&& final(state).offer == old(state).offer
            &&& final(state).connected == old(state).connected
            &&& final(state).server_expired == old(state).server_expired
        },
        epoch == old(state).epoch && status == PairingStatus::Connected ==> {
            &&& final(state).offer is None
            &&& final(state).connected
            &&& !final(state).server_expired
        },
        epoch == old(state).epoch && (status == PairingStatus::Expired || status == PairingStatus::NoSession) ==> {
            &&& final(state).offer is None
            &&& final(state).connected == old(state).connected
            &&& final(state).server_expired
        },
        final(state).epoch == old(state).epoch,
        final(state).loading == old(state).loading,
        final(state).error == old(state).error,
{
    if epoch != state.epoch {
        return;
    }
    match status {
        PairingStatus::Connected => {
            state.connected = true;
            state.server_expired = false;
            state.offer = None;
        },
        PairingStatus::Expired | PairingStatus::NoSession => {
            state.server_expired = true;
            state.offer = None;
        },
        PairingStatus::Pending => {},
    }
}

/// The server offered a code: it is shown when its expiry reads as RFC 3339 and
/// the link fits in a QR code, otherwise the panel reports an invalid code.
pub fn on_offer(state: &mut PairingState, pairing_uri: String, expires_at: &str)
    ensures
        !final(state).loading,
        final(state).epoch == old(state).epoch,
        final(state).connected == old(state).connected,
        final(state).server_expired == old(state).server_expired,
        match rfc3339_seconds(expires_at@) {
            Some(t) if qr_modules(pairing_uri@) is Some => {
                &&& final(state).offer matches Some(o) && o.pairing_uri@ == pairing_uri@ && o.expires_at == t
                &&& final(state).error == old(state).error
            },
            _ => {
                &&& final(state).offer == old(state).offer
                &&& text_opt(final(state).error) == Some("The server returned an invalid pairing code."@)
            },
        },
{
    let expiry = parse_rfc3339(expires_at);
    let fits = qr_code(pairing_uri.as_str()).is_ok();
    match expiry {
        Some(t) if fits => {
            state.offer = Some(PairingOffer { pairing_uri, expires_at: t });
        },
        _ => {
            state.error = Some("The server returned an invalid pairing code.".to_owned());
        },
    }
    state.loading = false;
}

/// The message for a refused request: the server's error text when its body
/// had one, else the status code.
pub open spec fn refusal_of(body_error: Option<Seq<char>>, status: u16) -> Seq<char> {
    match body_error {
        Some(e) => e,
        None => "Could not create a pairing code ("@ + dec(status as nat) + ")."@,
    }
}

/// A request for a code failed: record why.
pub fn on_offer_failed(state: &mut PairingState, body_error: Option<String>, status: u16)
    ensures
        !final(state).loading,
        text_opt(final(state).error) == Some(refusal_of(text_opt(body_error), status)),
        final(state).offer == old(state).offer,
        final(state).epoch == old(state).epoch,
        final(state).connected == old(state).connected,
        final(state).server_expired == old(state).server_expired,
{
    let message = match body_error {
        Some(e) => e,
        None => {
            let mut v = chars_of("Could not create a pairing code (");
            let d = dec_chars(status as u64);
            extend_chars(&mut v, d.as_slice());
            extend_str(&mut v, ").");
            string_of(v.as_slice())
        },
    };
    state.error = Some(message);
    state.loading = false;
}

/// The request or its answer could not be read: record which.
pub fn on_offer_unreadable(state: &mut PairingState, network: bool)
    ensures
        !final(state).loading,
        text_opt(final(state).error) == Some(
            if network { "Network error creating the pairing code."@ } else { "Could not read the server response."@ },
        ),
        final(state).offer == old(state).offer,
        final(state).epoch == old(state).epoch,
        final(state).connected == old(state).connected,
        final(state).server_expired == old(state).server_expired,
{
    state.error = Some(
        if network {
            "Network error creating the pairing code.".to_owned()
        } else {
            "Could not read the server response.".to_owned()
        },
    );
    state.loading = false;
}

/// What the pairing panel shows.
#[derive(Clone, Copy, Debug, PartialEq, Eq, Structural)]
pub enum PairingView {
    /// The phone is connected; another can be paired.
    Connected,
    /// The server says the code expired.
    ServerExpired,
    /// A code is on offer with this many seconds left.
    ShowingCode(i64),
    /// The code on offer ran out locally.
    CodeExpired,
    /// No code yet.
    Idle,
}

/// What the panel shows at time `now`.
pub open spec fn view_of(connected: bool, server_expired: bool, expires_at: Option<i64>, now: int) -> PairingView {
    if connected {
        PairingView::Connected
    } else if server_expired {
        PairingView::ServerExpired
    } else {
        match expires_at {
            Some(t) => if t - now > 0 { PairingView::ShowingCode((t - now) as i64) } else { PairingView::CodeExpired },
            None => PairingView::Idle,
        }
    }
}

/// What the pairing panel shows at time `now`.
pub fn pairing_view(state: &PairingState, now: i64) -> (v: PairingView)
    requires
        state.offer matches Some(o) ==> i64::MIN <= o.expires_at - now <= i64::MAX,
    ensures
        v == view_of(
            state.connected,
            state.server_expired,
            match state.offer {
                Some(o) => Some(o.expires_at),
                None => None,
            },
            now as int,
        ),
{
    if state.connected {
        PairingView::Connected
    } else if state.server_expired {
        PairingView::ServerExpired
    } else {
        match &state.offer {
            Some(o) => {
                let remaining = o.expires_at - now;
                if remaining > 0 { PairingView::ShowingCode(remaining) } else { PairingView::CodeExpired }
            },
            None => PairingView::Idle,
        }
    }
}

} // verus!
