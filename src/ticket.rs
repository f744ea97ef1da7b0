//! The ticket issuer: a scannable SVG code for a purchase identifier, and the
//! ticket rows shown in an account's history.
use vstd::prelude::*;
use vstd::string::*;
use vstd::utf8::*;

verus! {

#[verifier::external_type_specification]
#[verifier::external_body]
pub struct ExQrError(qrcode::types::QrError);

/// Smallest width and height of a rendered ticket, in SVG units.
pub const TICKET_MIN_SIZE: u32 = 400;

/// Color of the dark modules of a ticket.
pub const TICKET_DARK: &'static str = "#000000";

/// Color of the light modules of a ticket.
pub const TICKET_LIGHT: &'static str = "#ffffff";

/// The SVG document that qrcode renders for `data` at medium error
/// correction, with modules scaled so the image is at least `min_size` wide
/// and high, in the two colors given; `None` where the data does not fit in a
/// code.
pub uninterp spec fn qr_svg_of(data: Seq<u8>, min_size: u32, dark: Seq<char>, light: Seq<char>) -> Option<Seq<char>>;

/// Relies on qrcode's `QrCode::new` and on its SVG renderer
/// (`render`, `min_dimensions`, `dark_color`, `light_color`, `build`). The
/// image depends on the data, the size and the colors alone; `new` fails only
/// where the data cannot be encoded; the document begins with an XML
/// declaration, so it is never empty. The size bound keeps the renderer's
/// `u32` arithmetic from overflowing.
#[verifier::external_body]
fn qr_svg(data: &[u8], min_size: u32, dark: &str, light: &str) -> (r: Result<String, qrcode::types::QrError>)
    requires
        min_size <= 4096,
    ensures
        match r {
            Ok(s) => qr_svg_of(data@, min_size, dark@, light@) == Some(s@) && s@.len() > 0,
            Err(_) => qr_svg_of(data@, min_size, dark@, light@) is None,
        },
{
    let code = qrcode::QrCode::new(data)?;
    Ok(code
        .render()
        .min_dimensions(min_size, min_size)
        .dark_color(qrcode::render::svg::Color(dark))
        .light_color(qrcode::render::svg::Color(light))
        .build())
}

/// Why a ticket could not be rendered.
#[derive(Debug, Clone, Copy, PartialEq, Eq, Structural)]
pub enum TicketError {
    /// The identifier is empty.
    EmptyIdentifier,
    /// The identifier does not fit in a code.
    Unencodable,
}

/// The ticket image for identifier `id`: the code of its UTF-8 bytes at the
/// ticket's size and colors; `None` for an empty identifier or one that does
/// not fit.
pub open spec fn ticket_svg(id: Seq<char>) -> Option<Seq<char>> {
    if id.len() == 0 {
        None
    } else {
        qr_svg_of(encode_utf8(id), TICKET_MIN_SIZE, TICKET_DARK@, TICKET_LIGHT@)
    }
}

/// Renders the ticket for identifier `id`.
pub fn render_ticket(id: &str) -> (r: Result<String, TicketError>)
    ensures
        id@.len() == 0 ==> r == Err::<String, TicketError>(TicketError::EmptyIdentifier),
        id@.len() > 0 && ticket_svg(id@) is None ==> r == Err::<String, TicketError>(
            TicketError::Unencodable,
        ),
        r is Ok <==> ticket_svg(id@) is Some,
        r matches Ok(s) ==> ticket_svg(id@) == Some(s@) && s@.len() > 0,
{
    if id.is_empty() {
        return Err(TicketError::EmptyIdentifier);
    }
    match qr_svg(id.as_bytes(), TICKET_MIN_SIZE, TICKET_DARK, TICKET_LIGHT) {
        Ok(svg) => Ok(svg),
        Err(_) => Err(TicketError::Unencodable),
    }
}

/// Rendering is a function of the identifier: the same identifier always
/// gives the same image, or fails the same way.
pub proof fn lemma_ticket_rendering_is_deterministic(a: Seq<char>, b: Seq<char>)
    requires
        a == b,
    ensures
        ticket_svg(a) == ticket_svg(b),
{
}

/// A purchased seat as the history query returns it.
pub struct Ticket {
    pub movie: String,
    pub time: String,
    pub seat: i32,
    /// The purchase's raw identifier.
    pub id: String,
}

/// A purchased seat with its rendered code.
pub struct TicketInfo {
    pub movie: String,
    pub time: String,
    pub seat: i32,
    pub id: String,
    pub svg: String,
}

impl TicketInfo {
    /// Renders the code of `ticket`'s identifier and keeps the other fields.
    pub fn from_ticket(ticket: Ticket) -> (r: Result<TicketInfo, TicketError>)
        ensures
            r is Ok <==> ticket_svg(ticket.id@) is Some,
            ticket.id@.len() == 0 ==> r == Err::<TicketInfo, TicketError>(
                TicketError::EmptyIdentifier,
            ),
            ticket.id@.len() > 0 && ticket_svg(ticket.id@) is None ==> r == Err::<
                TicketInfo,
                TicketError,
            >(TicketError::Unencodable),
            r matches Ok(info) ==> {
                &&& info.movie == ticket.movie
                &&& info.time == ticket.time
                &&& info.seat == ticket.seat
                &&& info.id == ticket.id
                &&& ticket_svg(ticket.id@) == Some(info.svg@)
            },
    {
        let svg = match render_ticket(ticket.id.as_str()) {
            Ok(svg) => svg,
            Err(e) => return Err(e),
        };
        Ok(TicketInfo { movie: ticket.movie, time: ticket.time, seat: ticket.seat, id: ticket.id, svg })
    }
}

/// An account's ticket history page.
pub struct Tickets {
    pub tickets: Vec<TicketInfo>,
}

/// The tickets of an account that match a search.
pub struct SearchResults {
    pub tickets: Vec<TicketInfo>,
}

/// The search form of the ticket history.
pub struct Query {
    pub query: String,
}

} // verus!
