//! What the client does with each HTTP response: whether a download may be
//! written, and the exact text the upload and delete operations print.

use vstd::prelude::*;

verus! {

use crate::TransferError;
use crate::text::str_concat;
use vstd::string::StringExecFns;

/// The character for a single decimal digit.
pub open spec fn digit_char(d: nat) -> char {
    if d == 0 {
        '0'
    } else if d == 1 {
        '1'
    } else if d == 2 {
        '2'
    } else if d == 3 {
        '3'
    } else if d == 4 {
        '4'
    } else if d == 5 {
        '5'
    } else if d == 6 {
        '6'
    } else if d == 7 {
        '7'
    } else if d == 8 {
        '8'
    } else {
        '9'
    }
}

/// The decimal digits of `n`, most significant first; empty for zero.
pub open spec fn decimal_digits(n: nat) -> Seq<char>
    decreases n,
{
    if n == 0 {
        Seq::empty()
    } else {
        decimal_digits(n / 10).push(digit_char(n % 10))
    }
}

/// The usual decimal rendering of `n`: its digits, or `0` for zero.
pub open spec fn spec_status_text(n: u16) -> Seq<char> {
    if n == 0 {
        seq!['0']
    } else {
        decimal_digits(n as nat)
    }
}

/// A one-character string slice for the decimal digit `d`.
fn digit_str(d: u16) -> (r: &'static str)
    requires
        d < 10,
    ensures
        r@ == seq![digit_char(d as nat)],
{
    proof {
        reveal_strlit("0");
        reveal_strlit("1");
        reveal_strlit("2");
        reveal_strlit("3");
        reveal_strlit("4");
        reveal_strlit("5");
        reveal_strlit("6");
        reveal_strlit("7");
        reveal_strlit("8");
        reveal_strlit("9");
    }
    let r: &'static str = if d == 0 {
        "0"
    } else if d == 1 {
        "1"
    } else if d == 2 {
        "2"
    } else if d == 3 {
        "3"
    } else if d == 4 {
        "4"
    } else if d == 5 {
        "5"
    } else if d == 6 {
        "6"
    } else if d == 7 {
        "7"
    } else if d == 8 {
        "8"
    } else {
        "9"
    };
    proof {
        assert(r@ =~= seq![digit_char(d as nat)]);
    }
    r
}

/// The digits of a positive number, most significant first.
fn positive_digits(n: u16) -> (r: String)
    requires
        n > 0,
    ensures
        r@ == decimal_digits(n as nat),
    decreases n,
{
    let last = digit_str(n % 10);
    if n / 10 == 0 {
        proof {
            assert(decimal_digits(0) == Seq::<char>::empty());
            assert(n as nat / 10 == 0);
            assert(decimal_digits(n as nat) =~= seq![digit_char(n as nat % 10)]);
        }
        String::from_str(last)
    } else {
        let r = positive_digits(n / 10).concat(last);
        proof {
            assert(decimal_digits((n / 10) as nat) + seq![digit_char(n as nat % 10)]
                =~= decimal_digits(n as nat));
        }
        r
    }
}

/// Render an HTTP status code in decimal.
pub fn status_text(n: u16) -> (r: String)
    ensures
        r@ == spec_status_text(n),
{
    if n == 0 {
        proof {
            reveal_strlit("0");
            assert("0"@ =~= seq!['0']);
        }
        String::from_str("0")
    } else {
        positive_digits(n)
    }
}

/// Decide whether a downloaded body may be written to disk.
///
/// Only a success status releases the bytes — and exactly the bytes the
/// service sent. Any other status is refused as `Server`, so a failed
/// download never yields anything to write and no file is touched.
pub fn download_body_decision(status: u16, body: Vec<u8>) -> (r: Result<Vec<u8>, TransferError>)
    ensures
        200 <= status < 300 ==> (r matches Ok(b) && b@ == body@),
        !(200 <= status < 300) ==> r == Err::<Vec<u8>, TransferError>(TransferError::Server(
            status,
        )),
{
    if crate::is_success_status(status) {
        Ok(body)
    } else {
        Err(TransferError::Server(status))
    }
}

/// The report an upload prints, given the response status and body text.
///
/// A success status confirms the upload and echoes the server's reply; any
/// other status reports the failure with the status code and the reply. The
/// operation reports either way and does not abort.
pub open spec fn spec_upload_report(status: u16, body: Seq<char>) -> Seq<char> {
    if 200 <= status < 300 {
        "File uploaded successfully!\nServer response: "@ + body + "\n"@
    } else {
        "Upload failed with status: "@ + spec_status_text(status) + "\nResponse body: "@ + body
            + "\n"@
    }
}

/// Build the text an upload prints for a response.
pub fn upload_report(status: u16, body: &str) -> (r: String)
    ensures
        r@ == spec_upload_report(status, body@),
{
    if crate::is_success_status(status) {
        let mut text = String::from_str("File uploaded successfully!\nServer response: ");
        text.append(body);
        text.append("\n");
        text
    } else {
        let mut text = String::from_str("Upload failed with status: ");
        let digits = status_text(status);
        text.append(digits.as_str());
        text.append("\nResponse body: ");
        text.append(body);
        text.append("\n");
        text
    }
}

/// The text a deletion prints: the server's reply, on a line of its own,
/// whatever the status was.
pub fn delete_report(body: &str) -> (r: String)
    ensures
        r@ == body@ + "\n"@,
{
    str_concat(body, "\n")
}

} // verus!
