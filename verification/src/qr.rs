//! The QR code of a login ticket, drawn as rows of digits.

use vstd::prelude::*;
use vstd::utf8::*;

use crate::error::{AuthError, ErrorKind, ErrorV};
use crate::json::{Json, JsonV};
use crate::login::Ticket;
use crate::store::{document_outcome, text_json};

verus! {

/// What `qrcode::QrCode::new` makes of data: the width and, row by row, which modules are
/// dark; or the words of its error.
pub uninterp spec fn qr_modules(data: Seq<u8>) -> Result<(usize, Seq<bool>), Seq<char>>;

/// A QR code: `width` rows of `width` modules, row by row.
#[derive(Debug)]
pub struct Modules {
    pub width: usize,
    pub dark: Vec<bool>,
}

impl Modules {
    pub open spec fn square(self) -> bool {
        self.dark@.len() == self.width * self.width
    }
}

pub open spec fn modules_outcome(r: Result<Modules, String>) -> Result<
    (usize, Seq<bool>),
    Seq<char>,
> {
    match r {
        Ok(m) => Ok((m.width, m.dark@)),
        Err(e) => Err(e@),
    }
}

/// Data of at most so many bytes are sure to be encoded without a fault of the encoder.
pub const QR_SURE: usize = 127;

/// Data of at least so many bytes are refused before they are drawn.
pub const QR_NEVER: usize = 5602;

/// Whether data of that length are handed to the encoder.
pub open spec fn encodable(len: nat) -> bool {
    len <= QR_SURE || len >= QR_NEVER
}

/// Calls `qrcode::QrCode::new`, `width` and `into_colors`; an error is handed on in its own
/// words. The outcome depends on the data alone and goes by the name `qr_modules`. It claims
/// that there are as many colors as a square of that width has modules, and that data of
/// `QR_NEVER` bytes are refused: a byte takes ten thirds of a bit at least, and the largest code
/// holds 18672 bits.
///
/// Lengths in between are left out, because the encoder adds the scores of a mask in 16 bits,
/// which may overflow in a large code. Up to `QR_SURE` bytes they fit:
/// - Neighbouring segments that the encoder leaves apart hold four bytes at least, so 127 bytes
///   make at most 63 segments. Each takes at most 20 bits and 8 more for a byte, in all 2276
///   bits. That is a code of version 12 at most, 65 modules wide.
/// - Runs score at most 63 in each of 130 lines, and blocks at most 3 for each of 64 times 64.
/// - A pattern like a finder counts only with four light modules or the border at one side, so
///   that of three such patterns in a line the last starts 15 modules or more behind the first.
///   Nine would need 60 modules between the first start and the last, and a line has room for
///   58. Eight in each of 130 lines score 40 each, less 720.
/// - With at most 100 for the balance this makes 61458, and 16 bits hold 65535.
#[verifier::external_body]
fn qr_encode(data: &[u8]) -> (r: Result<Modules, String>)
    requires
        encodable(data@.len()),
    ensures
        modules_outcome(r) == qr_modules(data@),
        r is Ok ==> r->Ok_0.square(),
        data@.len() >= QR_NEVER ==> r is Err,
{
    match qrcode::QrCode::new(data) {
        Ok(code) => Ok(
            Modules {
                width: code.width(),
                dark: code.into_colors().into_iter().map(
                    |c| match c {
                        qrcode::Color::Dark => true,
                        qrcode::Color::Light => false,
                    },
                ).collect(),
            },
        ),
        Err(e) => Err(e.to_string()),
    }
}

/// One row of a QR code: a `1` for each dark module, a `0` for each light one, and a line
/// break.
pub open spec fn row(dark: Seq<bool>, width: nat, y: nat) -> Seq<char> {
    Seq::new(
        width,
        |x: int|
            if dark[y * width + x] {
                '1'
            } else {
                '0'
            },
    ).push('\n')
}

/// The first `n` rows of a QR code.
pub open spec fn rows(dark: Seq<bool>, width: nat, n: nat) -> Seq<char>
    decreases n,
{
    if n == 0 {
        Seq::empty()
    } else {
        rows(dark, width, (n - 1) as nat) + row(dark, width, (n - 1) as nat)
    }
}

/// Draws a QR code.
pub fn matrix(modules: &Modules) -> (r: String)
    requires
        modules.square(),
    ensures
        r@ == rows(modules.dark@, modules.width as nat, modules.width as nat),
{
    let w: usize = modules.width;
    let mut out: String = String::new();
    let ghost dark = modules.dark@;
    for y in 0..w
        invariant
            w == modules.width,
            dark == modules.dark@,
            dark.len() == w * w,
            modules.dark.len() == dark.len(),
            out@ == rows(dark, w as nat, y as nat),
    {
        let ghost before = out@;
        let ghost line = row(dark, w as nat, y as nat);
        assert(y * w + w <= w * w) by (nonlinear_arith)
            requires
                y < w,
        ;
        let start: usize = y * w;
        for x in 0..w
            invariant
                w == modules.width,
                dark == modules.dark@,
                modules.dark.len() == dark.len(),
                start == y * w,
                start + w <= modules.dark.len(),
                line == row(dark, w as nat, y as nat),
                out@ == before + line.take(x as int),
        {
            let c: char = if modules.dark[start + x] {
                '1'
            } else {
                '0'
            };
            assert(line[x as int] == c);
            out.push(c);
            assert(out@ =~= before + line.take(x + 1));
        }
        out.push('\n');
        assert(out@ =~= before + line);
    }
    out
}

/// What the card is told of a ticket whose QR code has been drawn.
pub open spec fn drawn(code: Seq<char>, url: Seq<char>, width: usize, dark: Seq<bool>) -> JsonV {
    JsonV::Null.with("ok"@, JsonV::Bool(true)).with("code"@, JsonV::Str(code)).with(
        "url"@,
        JsonV::Str(url),
    ).with("size"@, JsonV::Int(width as int)).with(
        "matrix"@,
        JsonV::Str(rows(dark, width as nat, width as nat)),
    )
}

/// Tells the card of a ticket whose QR code has been made.
pub fn drawn_ticket(ticket: &Ticket, modules: &Modules) -> (r: Json)
    requires
        modules.square(),
    ensures
        r@ == drawn(ticket.code@, ticket.url@, modules.width, modules.dark@),
{
    Json::Null.set("ok", Json::Bool(true)).set("code", text_json(ticket.code.as_str())).set(
        "url",
        text_json(ticket.url.as_str()),
    ).set("size", Json::Large(modules.width as u64)).set("matrix", Json::Str(matrix(modules)))
}

/// The ticket with its QR code, or why there is none.
pub open spec fn ticket_document(code: Seq<char>, url: Seq<char>) -> Result<JsonV, ErrorV> {
    match qr_modules(encode_utf8(url)) {
        Ok((width, dark)) => Ok(drawn(code, url, width, dark)),
        Err(e) => Err(ErrorV { kind: ErrorKind::Qr, detail: e }),
    }
}

/// Whether the QR code of a ticket's address can be made without a fault of the encoder.
pub fn drawable(ticket: &Ticket) -> (r: bool)
    ensures
        r == encodable(encode_utf8(ticket.url@).len()),
{
    let len: usize = ticket.url.as_str().as_bytes().len();
    len <= QR_SURE || len >= QR_NEVER
}

/// Makes the QR code of a ticket's address and tells the card of both.
pub fn draw_ticket(ticket: &Ticket) -> (r: Result<Json, AuthError>)
    requires
        encodable(encode_utf8(ticket.url@).len()),
    ensures
        document_outcome(r) == ticket_document(ticket.code@, ticket.url@),
{
    match qr_encode(ticket.url.as_str().as_bytes()) {
        Ok(modules) => Ok(drawn_ticket(ticket, &modules)),
        Err(e) => Err(AuthError::with(ErrorKind::Qr, e)),
    }
}

/// The report of the self-test of the ticket, with the size of its code.
pub open spec fn login_report(code: Seq<char>, url: Seq<char>, size: int) -> JsonV {
    JsonV::Null.with("ok"@, JsonV::Bool(true)).with("ticket"@, JsonV::Str(code)).with(
        "url"@,
        JsonV::Str(url),
    ).with("qr_size"@, JsonV::Int(size))
}

/// Reports on the self-test of the ticket, with the size of its code.
pub fn login_report_of(ticket: &Ticket, size: usize) -> (r: Json)
    ensures
        r@ == login_report(ticket.code@, ticket.url@, size as int),
{
    Json::Null.set("ok", Json::Bool(true)).set("ticket", text_json(ticket.code.as_str())).set(
        "url",
        text_json(ticket.url.as_str()),
    ).set("qr_size", Json::Large(size as u64))
}

/// Makes the QR code of a ticket's address and reports on the self-test; a code that cannot be
/// made has the size zero.
pub fn check_login(ticket: &Ticket) -> (r: Json)
    requires
        encodable(encode_utf8(ticket.url@).len()),
    ensures
        r@ == login_report(
            ticket.code@,
            ticket.url@,
            match qr_modules(encode_utf8(ticket.url@)) {
                Ok((width, _)) => width as int,
                Err(_) => 0,
            },
        ),
{
    match qr_encode(ticket.url.as_str().as_bytes()) {
        Ok(modules) => login_report_of(ticket, modules.width),
        Err(_) => login_report_of(ticket, 0),
    }
}

/// Where a drawn code shows its module in column `x` of line `y`.
pub open spec fn drawn_place(width: nat, x: nat, y: nat) -> nat {
    y * (width + 1) + x
}

/// A drawn code has one line for each row of modules and one digit for each module, in its
/// place; each line ends in a line break.
pub proof fn law_matrix_shows_each_module(dark: Seq<bool>, width: nat, n: nat, x: nat, y: nat)
    requires
        x < width,
        y < n,
    ensures
        rows(dark, width, n).len() == n * (width + 1),
        rows(dark, width, n)[drawn_place(width, x, y) as int] == if dark[(y * width + x) as int] {
            '1'
        } else {
            '0'
        },
        rows(dark, width, n)[drawn_place(width, width, y) as int] == '\n',
    decreases n,
{
    lemma_rows_len(dark, width, n);
    lemma_rows_len(dark, width, (n - 1) as nat);
    let before = rows(dark, width, (n - 1) as nat);
    let line = row(dark, width, (n - 1) as nat);
    if y + 1 == n {
        assert(rows(dark, width, n)[(before.len() + x) as int] == line[x as int]);
        assert(rows(dark, width, n)[(before.len() + width) as int] == line[width as int]);
    } else {
        law_matrix_shows_each_module(dark, width, (n - 1) as nat, x, y);
        assert(y * (width + 1) + width < (n - 1) * (width + 1)) by (nonlinear_arith)
            requires
                y < n - 1,
        ;
    }
}

proof fn lemma_rows_len(dark: Seq<bool>, width: nat, n: nat)
    ensures
        rows(dark, width, n).len() == n * (width + 1),
    decreases n,
{
    if n > 0 {
        lemma_rows_len(dark, width, (n - 1) as nat);
        assert((n - 1) * (width + 1) + (width + 1) == n * (width + 1)) by (nonlinear_arith)
            requires
                n > 0,
        ;
    } else {
        assert(0 * (width + 1) == 0) by (nonlinear_arith);
    }
}

/// What the card is told of a ticket is its code, its address, and the code as it is drawn, with
/// its width.
pub proof fn law_the_card_is_told_the_ticket_and_its_code(
    code: Seq<char>,
    url: Seq<char>,
    width: usize,
    dark: Seq<bool>,
)
    ensures
        drawn(code, url, width, dark).get("ok"@) == JsonV::Bool(true),
        drawn(code, url, width, dark).get("code"@) == JsonV::Str(code),
        drawn(code, url, width, dark).get("url"@) == JsonV::Str(url),
        drawn(code, url, width, dark).get("size"@) == JsonV::Int(width as int),
        drawn(code, url, width, dark).get("matrix"@) == JsonV::Str(
            rows(dark, width as nat, width as nat),
        ),
{
    reveal_strlit("ok");
    reveal_strlit("code");
    reveal_strlit("url");
    reveal_strlit("size");
    reveal_strlit("matrix");
    assert("ok"@.len() == 2 && "code"@.len() == 4 && "url"@.len() == 3 && "size"@.len() == 4);
    assert("matrix"@.len() == 6);
    assert("code"@[0] == 'c');
    assert("size"@[0] == 's');
}

/// The code that the card is told is the one of the ticket's address; where there is none, the
/// failure holds the encoder's words.
pub proof fn law_the_code_is_the_one_of_the_address(code: Seq<char>, url: Seq<char>)
    ensures
        match qr_modules(encode_utf8(url)) {
            Ok((width, dark)) => ticket_document(code, url) == Ok::<JsonV, ErrorV>(
                drawn(code, url, width, dark),
            ),
            Err(words) => ticket_document(code, url) == Err::<JsonV, ErrorV>(
                ErrorV { kind: ErrorKind::Qr, detail: words },
            ),
        },
{
}

/// The report of the self-test of a ticket tells its code, its address and the size of its code.
pub proof fn law_the_ticket_report_tells_code_address_and_size(
    code: Seq<char>,
    url: Seq<char>,
    size: int,
)
    ensures
        login_report(code, url, size).get("ok"@) == JsonV::Bool(true),
        login_report(code, url, size).get("ticket"@) == JsonV::Str(code),
        login_report(code, url, size).get("url"@) == JsonV::Str(url),
        login_report(code, url, size).get("qr_size"@) == JsonV::Int(size),
{
    reveal_strlit("ok");
    reveal_strlit("ticket");
    reveal_strlit("url");
    reveal_strlit("qr_size");
    assert("ok"@.len() == 2 && "ticket"@.len() == 6 && "url"@.len() == 3 && "qr_size"@.len() == 7);
}

/// Short addresses are drawn and very long ones refused: the encoder is handed those of at most
/// 127 bytes and those of at least 5602.
pub proof fn law_what_is_handed_to_the_encoder(len: nat)
    ensures
        encodable(len) <==> len <= 127 || len >= 5602,
{
}

/// The self-test of a ticket tells the width of the code of its address, zero where there is none,
/// and says that all is well either way.
pub proof fn law_the_ticket_report_is_of_the_address(ticket: &Ticket, r: Json)
    requires
        call_ensures(check_login, (ticket,), r),
    ensures
        r@.get("ok"@) == JsonV::Bool(true),
        r@.get("ticket"@) == JsonV::Str(ticket.code@),
        r@.get("url"@) == JsonV::Str(ticket.url@),
        match qr_modules(encode_utf8(ticket.url@)) {
            Ok((width, _)) => r@.get("qr_size"@) == JsonV::Int(width as int),
            Err(_) => r@.get("qr_size"@) == JsonV::Int(0),
        },
{
    let size = match qr_modules(encode_utf8(ticket.url@)) {
        Ok((width, _)) => width as int,
        Err(_) => 0,
    };
    law_the_ticket_report_tells_code_address_and_size(ticket.code@, ticket.url@, size);
}

} // verus!
