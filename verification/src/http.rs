//! What the server answers: which page a request line gets, and how the
//! response is framed.

use crate::decimal::{decimal, push_decimal};
use vstd::prelude::*;
use vstd::string::*;

verus! {

/// The status line of a request that was understood.
pub const STATUS_LINE_200: &'static str = "HTTP/1.1 200 OK";

/// The status line of any other request.
pub const STATUS_LINE_404: &'static str = "HTTP/1.1 404 NOT FOUND";

/// The file that holds the main page.
pub const MAIN_PAGE: &'static str = "welcome.html";

/// The file that holds the page for unknown requests.
pub const PAGE_404: &'static str = "404.html";

/// The request line that asks for the main page.
pub const REQUEST_LINE_MAIN: &'static str = "GET / HTTP/1.1";

/// The request line that asks for the main page after a pause.
pub const REQUEST_LINE_SLEEP: &'static str = "GET /sleep HTTP/1.1";

/// The length of that pause, in seconds.
pub const SLEEP_SECS: u64 = 5;

/// How a request is answered.
pub struct Route {
    /// The first line of the response.
    pub status_line: &'static str,
    /// The file whose contents are the body of the response.
    pub filename: &'static str,
    /// The seconds to wait before answering.
    pub delay_secs: u64,
}

/// Whether `route` answers with the main page after `delay_secs` seconds.
pub open spec fn serves_main(route: Route, delay_secs: u64) -> bool {
    &&& route.status_line@ == STATUS_LINE_200@
    &&& route.filename@ == MAIN_PAGE@
    &&& route.delay_secs == delay_secs
}

/// Whether `route` answers with the page for unknown requests.
pub open spec fn serves_not_found(route: Route) -> bool {
    &&& route.status_line@ == STATUS_LINE_404@
    &&& route.filename@ == PAGE_404@
    &&& route.delay_secs == 0
}

/// Chooses the answer to a request by its first line: the main page for the
/// two request lines that the server knows, the second of them after a pause,
/// and the page for unknown requests for anything else.
pub fn route(request_line: &str) -> (route: Route)
    ensures
        request_line@ == REQUEST_LINE_MAIN@ ==> serves_main(route, 0),
        request_line@ != REQUEST_LINE_MAIN@ && request_line@ == REQUEST_LINE_SLEEP@ ==> serves_main(
            route,
            SLEEP_SECS,
        ),
        request_line@ != REQUEST_LINE_MAIN@ && request_line@ != REQUEST_LINE_SLEEP@
            ==> serves_not_found(route),
{
    let line = String::from_str(request_line);
    if line == String::from_str(REQUEST_LINE_MAIN) {
        Route { status_line: STATUS_LINE_200, filename: MAIN_PAGE, delay_secs: 0 }
    } else if line == String::from_str(REQUEST_LINE_SLEEP) {
        Route { status_line: STATUS_LINE_200, filename: MAIN_PAGE, delay_secs: SLEEP_SECS }
    } else {
        Route { status_line: STATUS_LINE_404, filename: PAGE_404, delay_secs: 0 }
    }
}

/// The text of a response with the given status line and body.
pub open spec fn response_text(status_line: Seq<char>, length: nat, contents: Seq<char>) -> Seq<
    char,
> {
    status_line + "\r\nContent-Length: "@ + decimal(length) + "\r\n\r\n"@ + contents
}

/// Frames a response: the status line, the length of the body in bytes as
/// the only header, an empty line, and the body.
pub fn response(status_line: &str, contents: &str) -> (text: String)
    ensures
        text@ == response_text(status_line@, contents.len() as nat, contents@),
{
    let mut text = String::from_str(status_line);
    text.append("\r\nContent-Length: ");
    push_decimal(&mut text, contents.len());
    text.append("\r\n\r\n");
    text.append(contents);
    text
}

} // verus!
