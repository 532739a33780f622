//! The notifier's own logic: the registration message, the check of an
//! address, and the counts of what became of each message.
use crate::db::inc;
use crate::text::{decimal, push_count};
use vstd::prelude::*;

verus! {

/// Whether `addr` parses as an e-mail address (`lettre::Address`).
pub uninterp spec fn is_email_address(addr: Seq<char>) -> bool;

/// Relies on `lettre::Address::from_str`: whether the text is an e-mail
/// address that the mail transport accepts.
#[verifier::external_body]
pub(crate) fn address_parses(addr: &str) -> (r: bool)
    ensures
        r == is_email_address(addr@),
{
    addr.parse::<lettre::Address>().is_ok()
}

/// A registration message to send: where to, and the validation code.
#[derive(Debug, Clone)]
pub struct RegisterData {
    pub dest_addr: String,
    pub reg_key: String,
}

/// What became of one message.
#[derive(Debug, Clone, Copy, PartialEq, Eq)]
pub enum SendOutcome {
    Sent,
    BadAddress,
    BadMessage,
    SendFailed,
}

/// The counts of messages sent and of the failures at each stage.
#[derive(Debug, Clone, Copy)]
pub struct StatusReport {
    pub successes: u32,
    pub fails_parse_email: u32,
    pub fails_msg_build: u32,
    pub fails_sending: u32,
    pub status_report: u32,
}

/// The text of the notifier's status report.
pub open spec fn report_text(r: StatusReport) -> Seq<char> {
    "Email status report:\n"@
        + "  Successes: "@ + decimal(r.successes as nat) + "\n"@
        + "  Fails:\n"@
        + "    Parsing addrs: "@ + decimal(r.fails_parse_email as nat) + "\n"@
        + "    Building message: "@ + decimal(r.fails_msg_build as nat) + "\n"@
        + "    Sending: "@ + decimal(r.fails_sending as nat) + "\n"@
        + "  Status Reports: "@ + decimal(r.status_report as nat) + ""@
}

impl StatusReport {
    /// A report with every count at zero.
    pub fn new() -> (r: StatusReport)
        ensures
            r.successes == 0 && r.fails_parse_email == 0 && r.fails_msg_build == 0
                && r.fails_sending == 0 && r.status_report == 0,
    {
        StatusReport {
            successes: 0,
            fails_parse_email: 0,
            fails_msg_build: 0,
            fails_sending: 0,
            status_report: 0,
        }
    }

    /// Counts one message by what became of it.
    pub fn record_send(&mut self, outcome: SendOutcome)
        ensures
            *final(self) == match outcome {
                SendOutcome::Sent => StatusReport { successes: inc(old(self).successes), ..*old(self) },
                SendOutcome::BadAddress => StatusReport {
                    fails_parse_email: inc(old(self).fails_parse_email),
                    ..*old(self)
                },
                SendOutcome::BadMessage => StatusReport {
                    fails_msg_build: inc(old(self).fails_msg_build),
                    ..*old(self)
                },
                SendOutcome::SendFailed => StatusReport {
                    fails_sending: inc(old(self).fails_sending),
                    ..*old(self)
                },
            },
    {
        match outcome {
            SendOutcome::Sent => self.successes = self.successes.saturating_add(1),
            SendOutcome::BadAddress => self.fails_parse_email = self.fails_parse_email.saturating_add(1),
            SendOutcome::BadMessage => self.fails_msg_build = self.fails_msg_build.saturating_add(1),
            SendOutcome::SendFailed => self.fails_sending = self.fails_sending.saturating_add(1),
        }
    }

    /// Counts a request for the report, and returns the report that answers
    /// it.
    pub fn record_status_report(&mut self) -> (r: StatusReport)
        ensures
            *final(self) == (StatusReport { status_report: inc(old(self).status_report), ..*old(self) }),
            r == *final(self),
    {
        self.status_report = self.status_report.saturating_add(1);
        *self
    }

    /// The human-readable status report of the notifier.
    pub fn summary(&self) -> (t: String)
        ensures
            t@ == report_text(*self),
    {
        let mut t = String::from_str("Email status report:\n");
        push_count(&mut t, "  Successes: ", self.successes, "\n");
        t.append("  Fails:\n");
        push_count(&mut t, "    Parsing addrs: ", self.fails_parse_email, "\n");
        push_count(&mut t, "    Building message: ", self.fails_msg_build, "\n");
        push_count(&mut t, "    Sending: ", self.fails_sending, "\n");
        push_count(&mut t, "  Status Reports: ", self.status_report, "");
        t
    }
}

/// The plain-text body of a registration message.
pub open spec fn registration_text_of(frontend_loc: Seq<char>, reg_key: Seq<char>) -> Seq<char> {
    "Welcome to Running Stream - build your own Roku channel!  Please paste the following link into your browser to complete registration "@
        + frontend_loc + "/validate.html?val_code="@ + reg_key
        + " - if you did not attempt to register at Running Stream please just delete this email."@
}

/// The HTML body of a registration message.
pub open spec fn registration_html_of(frontend_loc: Seq<char>, reg_key: Seq<char>) -> Seq<char> {
    "<p>Welcome to Running Stream - build your own Roku channel!</p>  <p><a href=\""@ + frontend_loc
        + "/validate.html?val_code="@ + reg_key
        + "\">Please click here to complete registration</a></p>  <p>If you did not attempt to register at Running Stream please just delete this email.</p>"@
}

/// The plain-text body of a registration message: a link to the
/// validation page carrying the code.
pub fn registration_text(frontend_loc: &str, reg_key: &str) -> (r: String)
    ensures
        r@ == registration_text_of(frontend_loc@, reg_key@),
{
    let mut r = String::from_str(
        "Welcome to Running Stream - build your own Roku channel!  Please paste the following link into your browser to complete registration ",
    );
    r.append(frontend_loc);
    r.append("/validate.html?val_code=");
    r.append(reg_key);
    r.append(
        " - if you did not attempt to register at Running Stream please just delete this email.",
    );
    r
}

/// The HTML body of a registration message.
pub fn registration_html(frontend_loc: &str, reg_key: &str) -> (r: String)
    ensures
        r@ == registration_html_of(frontend_loc@, reg_key@),
{
    let mut r = String::from_str(
        "<p>Welcome to Running Stream - build your own Roku channel!</p>  <p><a href=\"",
    );
    r.append(frontend_loc);
    r.append("/validate.html?val_code=");
    r.append(reg_key);
    r.append(
        "\">Please click here to complete registration</a></p>  <p>If you did not attempt to register at Running Stream please just delete this email.</p>",
    );
    r
}

} // verus!
