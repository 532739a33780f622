//! The session lifecycle built on the store's commands: issuing a session
//! key after a verified password, refreshing a device key, the validation
//! gate of protected requests, and how a rejection is answered.
use crate::db::{Action, DBError, NameOrID, Response, inc};
use crate::email::{RegisterData, address_parses, is_email_address};
use crate::helpers::{SESSION_COOKIE_NAME, SessType, max_age_seconds};
use crate::models::AuthForm;
use crate::password_hash_version::{PWHashError, pw_verdict, validate_pw_ver};
use crate::text::{
    decimal, has_prefix, hex_digit, hex_width, push_count, push_decimal, push_hex, starts_with,
};
use rand::Rng;
use vstd::prelude::*;

verus! {

/// The shortest password an account may be created with, in bytes.
pub const MIN_PASSWORD_LEN: usize = 8;

/// Why a request is refused.
#[derive(Debug)]
pub enum Rejections {
    InvalidUserLookup,
    InvalidUserNonValidated,
    InvalidPassword,
    InvalidSession,
    InvalidEmailAddr,
    InvalidValidationCode,
    InvalidOriginOrReferer,
    InvalidRefreshSessionType,
    ErrorInternal(String),
    ErrorFromPWHash(PWHashError),
    ErrorFromDB(DBError),
    /// The store answered a command with a reply of the wrong kind; names
    /// the command and holds the reply.
    ErrorDBAPI(String, Response),
}

impl From<DBError> for Rejections {
    fn from(err: DBError) -> (r: Rejections) {
        Rejections::ErrorFromDB(err)
    }
}

impl vstd::std_specs::convert::FromSpecImpl<DBError> for Rejections {
    open spec fn obeys_from_spec() -> bool {
        true
    }

    open spec fn from_spec(v: DBError) -> Rejections {
        Rejections::ErrorFromDB(v)
    }
}

impl From<PWHashError> for Rejections {
    fn from(err: PWHashError) -> (r: Rejections) {
        Rejections::ErrorFromPWHash(err)
    }
}

impl vstd::std_specs::convert::FromSpecImpl<PWHashError> for Rejections {
    open spec fn obeys_from_spec() -> bool {
        true
    }

    open spec fn from_spec(v: PWHashError) -> Rejections {
        Rejections::ErrorFromPWHash(v)
    }
}

/// The counts of requests the handlers served, by kind and class.
#[derive(Debug, Clone, Copy)]
pub struct InnerStatusReport {
    pub authenticate: u32,
    pub authenticate_ro: u32,
    pub authenticate_fe: u32,
    pub authenticate_di: u32,
    pub get_status_report: u32,
    pub validate_account: u32,
    pub create_account: u32,
    pub refresh_session: u32,
    pub refresh_session_ro: u32,
    pub refresh_session_di: u32,
    pub validate_session: u32,
    pub validate_session_fe: u32,
    pub validate_session_ro: u32,
    pub validate_session_di: u32,
    pub logout_session: u32,
    pub logout_session_fe: u32,
    pub logout_session_ro: u32,
    pub logout_session_di: u32,
    pub get_channel_lists: u32,
    pub get_channel_list: u32,
    pub get_channel_xml_ro: u32,
    pub set_channel_list: u32,
    pub rename_channel: u32,
    pub create_channel_list: u32,
    pub delete_channel: u32,
    pub set_active_channel: u32,
    pub get_active_channel_name: u32,
    pub get_active_channel: u32,
    pub get_active_channel_fe: u32,
    pub get_active_channel_ro: u32,
    pub get_active_channel_di: u32,
    pub auth_success: u32,
    pub account_created: u32,
}

/// The text of the request handlers' status report.
pub open spec fn report_text(r: InnerStatusReport) -> Seq<char> {
    "API Handler Status Report:\n"@
        + "  Authentications: "@ + decimal(r.authenticate as nat) + "\n"@
        + "    Successful: "@ + decimal(r.auth_success as nat) + "\n"@
        + "    Frontend Auths: "@ + decimal(r.authenticate_fe as nat) + "\n"@
        + "    Roku Auths: "@ + decimal(r.authenticate_ro as nat) + "\n"@
        + "    Display Auths: "@ + decimal(r.authenticate_di as nat) + "\n"@
        + "  Account Creations: "@ + decimal(r.account_created as nat) + "\n"@
        + "    Attempted: "@ + decimal(r.create_account as nat) + "\n"@
        + "  Refresh Session: "@ + decimal(r.refresh_session as nat) + "\n"@
        + "    Roku: "@ + decimal(r.refresh_session_ro as nat) + "\n"@
        + "    Display: "@ + decimal(r.refresh_session_di as nat) + "\n"@
        + "  Validations:\n"@
        + "    Account: "@ + decimal(r.validate_account as nat) + "\n"@
        + "    Session: "@ + decimal(r.validate_session as nat) + "\n"@
        + "      Frontend: "@ + decimal(r.validate_session_fe as nat) + "\n"@
        + "      Roku: "@ + decimal(r.validate_session_ro as nat) + "\n"@
        + "      Display: "@ + decimal(r.validate_session_di as nat) + "\n"@
        + "  Logouts: "@ + decimal(r.logout_session as nat) + "\n"@
        + "    Frontend: "@ + decimal(r.logout_session_fe as nat) + "\n"@
        + "    Roku: "@ + decimal(r.logout_session_ro as nat) + "\n"@
        + "    Display: "@ + decimal(r.logout_session_di as nat) + "\n"@
        + "  Channel Stuff:\n"@
        + "    Create: "@ + decimal(r.create_channel_list as nat) + "\n"@
        + "    Rename: "@ + decimal(r.rename_channel as nat) + "\n"@
        + "    Set Active: "@ + decimal(r.set_active_channel as nat) + "\n"@
        + "    Delete: "@ + decimal(r.delete_channel as nat) + "\n"@
        + "    Change Content: "@ + decimal(r.set_channel_list as nat) + "\n"@
        + "    Get Content: "@ + decimal(r.get_channel_list as nat) + "\n"@
        + "    Get XML Content Roku: "@ + decimal(r.get_channel_xml_ro as nat) + "\n"@
        + "    Get Channel Lists: "@ + decimal(r.get_channel_lists as nat) + "\n"@
        + "    Get Active Name: "@ + decimal(r.get_active_channel_name as nat) + "\n"@
        + "    Get Active: "@ + decimal(r.get_active_channel as nat) + "\n"@
        + "      Frontend: "@ + decimal(r.get_active_channel_fe as nat) + "\n"@
        + "      Roku: "@ + decimal(r.get_active_channel_ro as nat) + "\n"@
        + "      Display: "@ + decimal(r.get_active_channel_di as nat) + "\n"@
        + "  Status Reports: "@ + decimal(r.get_status_report as nat) + "\n"@
}

impl InnerStatusReport {
    /// A report with every count at zero.
    pub fn new() -> (r: InnerStatusReport)
        ensures
            r == InnerStatusReport::zero(),
    {
        InnerStatusReport {
            authenticate: 0,
            authenticate_ro: 0,
            authenticate_fe: 0,
            authenticate_di: 0,
            get_status_report: 0,
            validate_account: 0,
            create_account: 0,
            refresh_session: 0,
            refresh_session_ro: 0,
            refresh_session_di: 0,
            validate_session: 0,
            validate_session_fe: 0,
            validate_session_ro: 0,
            validate_session_di: 0,
            logout_session: 0,
            logout_session_fe: 0,
            logout_session_ro: 0,
            logout_session_di: 0,
            get_channel_lists: 0,
            get_channel_list: 0,
            get_channel_xml_ro: 0,
            set_channel_list: 0,
            rename_channel: 0,
            create_channel_list: 0,
            delete_channel: 0,
            set_active_channel: 0,
            get_active_channel_name: 0,
            get_active_channel: 0,
            get_active_channel_fe: 0,
            get_active_channel_ro: 0,
            get_active_channel_di: 0,
            auth_success: 0,
            account_created: 0,
        }
    }

    pub open spec fn zero() -> InnerStatusReport {
        InnerStatusReport {
            authenticate: 0,
            authenticate_ro: 0,
            authenticate_fe: 0,
            authenticate_di: 0,
            get_status_report: 0,
            validate_account: 0,
            create_account: 0,
            refresh_session: 0,
            refresh_session_ro: 0,
            refresh_session_di: 0,
            validate_session: 0,
            validate_session_fe: 0,
            validate_session_ro: 0,
            validate_session_di: 0,
            logout_session: 0,
            logout_session_fe: 0,
            logout_session_ro: 0,
            logout_session_di: 0,
            get_channel_lists: 0,
            get_channel_list: 0,
            get_channel_xml_ro: 0,
            set_channel_list: 0,
            rename_channel: 0,
            create_channel_list: 0,
            delete_channel: 0,
            set_active_channel: 0,
            get_active_channel_name: 0,
            get_active_channel: 0,
            get_active_channel_fe: 0,
            get_active_channel_ro: 0,
            get_active_channel_di: 0,
            auth_success: 0,
            account_created: 0,
        }
    }

    /// Counts an authentication attempt of class `sess_type`.
    pub fn record_authenticate(&mut self, sess_type: SessType)
        ensures
            *final(self) == match sess_type {
                SessType::Frontend => InnerStatusReport { authenticate: inc(old(self).authenticate), authenticate_fe: inc(old(self).authenticate_fe), ..*old(self) },
                SessType::Roku => InnerStatusReport { authenticate: inc(old(self).authenticate), authenticate_ro: inc(old(self).authenticate_ro), ..*old(self) },
                SessType::Display => InnerStatusReport { authenticate: inc(old(self).authenticate), authenticate_di: inc(old(self).authenticate_di), ..*old(self) },
            },
    {
        match sess_type {
            SessType::Frontend => self.authenticate_fe = self.authenticate_fe.saturating_add(1),
            SessType::Roku => self.authenticate_ro = self.authenticate_ro.saturating_add(1),
            SessType::Display => self.authenticate_di = self.authenticate_di.saturating_add(1),
        }
        self.authenticate = self.authenticate.saturating_add(1);
    }

    /// Counts a session validation of class `sess_type`.
    pub fn record_validate_session(&mut self, sess_type: SessType)
        ensures
            *final(self) == match sess_type {
                SessType::Frontend => InnerStatusReport { validate_session: inc(old(self).validate_session), validate_session_fe: inc(old(self).validate_session_fe), ..*old(self) },
                SessType::Roku => InnerStatusReport { validate_session: inc(old(self).validate_session), validate_session_ro: inc(old(self).validate_session_ro), ..*old(self) },
                SessType::Display => InnerStatusReport { validate_session: inc(old(self).validate_session), validate_session_di: inc(old(self).validate_session_di), ..*old(self) },
            },
    {
        match sess_type {
            SessType::Frontend => self.validate_session_fe = self.validate_session_fe.saturating_add(1),
            SessType::Roku => self.validate_session_ro = self.validate_session_ro.saturating_add(1),
            SessType::Display => self.validate_session_di = self.validate_session_di.saturating_add(1),
        }
        self.validate_session = self.validate_session.saturating_add(1);
    }

    /// Counts a logout of class `sess_type`.
    pub fn record_logout(&mut self, sess_type: SessType)
        ensures
            *final(self) == match sess_type {
                SessType::Frontend => InnerStatusReport { logout_session: inc(old(self).logout_session), logout_session_fe: inc(old(self).logout_session_fe), ..*old(self) },
                SessType::Roku => InnerStatusReport { logout_session: inc(old(self).logout_session), logout_session_ro: inc(old(self).logout_session_ro), ..*old(self) },
                SessType::Display => InnerStatusReport { logout_session: inc(old(self).logout_session), logout_session_di: inc(old(self).logout_session_di), ..*old(self) },
            },
    {
        match sess_type {
            SessType::Frontend => self.logout_session_fe = self.logout_session_fe.saturating_add(1),
            SessType::Roku => self.logout_session_ro = self.logout_session_ro.saturating_add(1),
            SessType::Display => self.logout_session_di = self.logout_session_di.saturating_add(1),
        }
        self.logout_session = self.logout_session.saturating_add(1);
    }

    /// Counts a request for the active channel of class `sess_type`.
    pub fn record_get_active_channel(&mut self, sess_type: SessType)
        ensures
            *final(self) == match sess_type {
                SessType::Frontend => InnerStatusReport { get_active_channel: inc(old(self).get_active_channel), get_active_channel_fe: inc(old(self).get_active_channel_fe), ..*old(self) },
                SessType::Roku => InnerStatusReport { get_active_channel: inc(old(self).get_active_channel), get_active_channel_ro: inc(old(self).get_active_channel_ro), ..*old(self) },
                SessType::Display => InnerStatusReport { get_active_channel: inc(old(self).get_active_channel), get_active_channel_di: inc(old(self).get_active_channel_di), ..*old(self) },
            },
    {
        match sess_type {
            SessType::Frontend => self.get_active_channel_fe = self.get_active_channel_fe.saturating_add(1),
            SessType::Roku => self.get_active_channel_ro = self.get_active_channel_ro.saturating_add(1),
            SessType::Display => self.get_active_channel_di = self.get_active_channel_di.saturating_add(1),
        }
        self.get_active_channel = self.get_active_channel.saturating_add(1);
    }

    /// Counts a refresh of a device class's session; the browser class has
    /// no refresh count.
    pub fn record_refresh(&mut self, sess_type: SessType)
        requires
            sess_type != SessType::Frontend,
        ensures
            *final(self) == match sess_type {
                SessType::Roku => InnerStatusReport { refresh_session: inc(old(self).refresh_session), refresh_session_ro: inc(old(self).refresh_session_ro), ..*old(self) },
                _ => InnerStatusReport { refresh_session: inc(old(self).refresh_session), refresh_session_di: inc(old(self).refresh_session_di), ..*old(self) },
            },
    {
        match sess_type {
            SessType::Roku => self.refresh_session_ro = self.refresh_session_ro.saturating_add(1),
            _ => self.refresh_session_di = self.refresh_session_di.saturating_add(1),
        }
        self.refresh_session = self.refresh_session.saturating_add(1);
    }

    /// The human-readable status report of the request handlers.
    pub fn summary(&self) -> (t: String)
        ensures
            t@ == report_text(*self),
    {
        let mut t = String::from_str("API Handler Status Report:\n");
        push_count(&mut t, "  Authentications: ", self.authenticate, "\n");
        push_count(&mut t, "    Successful: ", self.auth_success, "\n");
        push_count(&mut t, "    Frontend Auths: ", self.authenticate_fe, "\n");
        push_count(&mut t, "    Roku Auths: ", self.authenticate_ro, "\n");
        push_count(&mut t, "    Display Auths: ", self.authenticate_di, "\n");
        push_count(&mut t, "  Account Creations: ", self.account_created, "\n");
        push_count(&mut t, "    Attempted: ", self.create_account, "\n");
        push_count(&mut t, "  Refresh Session: ", self.refresh_session, "\n");
        push_count(&mut t, "    Roku: ", self.refresh_session_ro, "\n");
        push_count(&mut t, "    Display: ", self.refresh_session_di, "\n");
        t.append("  Validations:\n");
        push_count(&mut t, "    Account: ", self.validate_account, "\n");
        push_count(&mut t, "    Session: ", self.validate_session, "\n");
        push_count(&mut t, "      Frontend: ", self.validate_session_fe, "\n");
        push_count(&mut t, "      Roku: ", self.validate_session_ro, "\n");
        push_count(&mut t, "      Display: ", self.validate_session_di, "\n");
        push_count(&mut t, "  Logouts: ", self.logout_session, "\n");
        push_count(&mut t, "    Frontend: ", self.logout_session_fe, "\n");
        push_count(&mut t, "    Roku: ", self.logout_session_ro, "\n");
        push_count(&mut t, "    Display: ", self.logout_session_di, "\n");
        t.append("  Channel Stuff:\n");
        push_count(&mut t, "    Create: ", self.create_channel_list, "\n");
        push_count(&mut t, "    Rename: ", self.rename_channel, "\n");
        push_count(&mut t, "    Set Active: ", self.set_active_channel, "\n");
        push_count(&mut t, "    Delete: ", self.delete_channel, "\n");
        push_count(&mut t, "    Change Content: ", self.set_channel_list, "\n");
        push_count(&mut t, "    Get Content: ", self.get_channel_list, "\n");
        push_count(&mut t, "    Get XML Content Roku: ", self.get_channel_xml_ro, "\n");
        push_count(&mut t, "    Get Channel Lists: ", self.get_channel_lists, "\n");
        push_count(&mut t, "    Get Active Name: ", self.get_active_channel_name, "\n");
        push_count(&mut t, "    Get Active: ", self.get_active_channel, "\n");
        push_count(&mut t, "      Frontend: ", self.get_active_channel_fe, "\n");
        push_count(&mut t, "      Roku: ", self.get_active_channel_ro, "\n");
        push_count(&mut t, "      Display: ", self.get_active_channel_di, "\n");
        push_count(&mut t, "  Status Reports: ", self.get_status_report, "\n");
        t
    }
}

pub proof fn lemma_hex_width_len(n: nat, width: nat)
    ensures
        hex_width(n, width).len() == width,
    decreases width,
{
    if width > 0 {
        lemma_hex_width_len(n / 16, (width - 1) as nat);
    }
}

/// Sixteen to the power `w`.
pub open spec fn pow16(w: nat) -> nat
    decreases w,
{
    if w == 0 {
        1
    } else {
        16 * pow16((w - 1) as nat)
    }
}

/// The value of an uppercase hexadecimal digit.
pub open spec fn hex_value(c: char) -> nat {
    if c == '0' {
        0
    } else if c == '1' {
        1
    } else if c == '2' {
        2
    } else if c == '3' {
        3
    } else if c == '4' {
        4
    } else if c == '5' {
        5
    } else if c == '6' {
        6
    } else if c == '7' {
        7
    } else if c == '8' {
        8
    } else if c == '9' {
        9
    } else if c == 'A' {
        10
    } else if c == 'B' {
        11
    } else if c == 'C' {
        12
    } else if c == 'D' {
        13
    } else if c == 'E' {
        14
    } else {
        15
    }
}

proof fn lemma_hex_digit_value(d: nat)
    requires
        d < 16,
    ensures
        hex_value(hex_digit(d)) == d,
{
    if d == 0 {
        assert(hex_digit(0) == '0');
    } else if d == 1 {
        assert(hex_digit(1) == '1');
    } else if d == 2 {
        assert(hex_digit(2) == '2');
    } else if d == 3 {
        assert(hex_digit(3) == '3');
    } else if d == 4 {
        assert(hex_digit(4) == '4');
    } else if d == 5 {
        assert(hex_digit(5) == '5');
    } else if d == 6 {
        assert(hex_digit(6) == '6');
    } else if d == 7 {
        assert(hex_digit(7) == '7');
    } else if d == 8 {
        assert(hex_digit(8) == '8');
    } else if d == 9 {
        assert(hex_digit(9) == '9');
    } else if d == 10 {
        assert(hex_digit(10) == 'A');
    } else if d == 11 {
        assert(hex_digit(11) == 'B');
    } else if d == 12 {
        assert(hex_digit(12) == 'C');
    } else if d == 13 {
        assert(hex_digit(13) == 'D');
    } else if d == 14 {
        assert(hex_digit(14) == 'E');
    } else {
        assert(hex_digit(15) == 'F');
    }
}

/// Numbers below `16^w` have different `w`-digit renderings.
pub proof fn lemma_hex_width_injective(a: nat, b: nat, w: nat)
    requires
        a < pow16(w),
        b < pow16(w),
        hex_width(a, w) == hex_width(b, w),
    ensures
        a == b,
    decreases w,
{
    if w > 0 {
        let v = (w - 1) as nat;
        assert(hex_width(a, w).last() == hex_digit(a % 16));
        assert(hex_width(b, w).last() == hex_digit(b % 16));
        lemma_hex_digit_value(a % 16);
        lemma_hex_digit_value(b % 16);
        assert(hex_width(a, w).drop_last() =~= hex_width(a / 16, v));
        assert(hex_width(b, w).drop_last() =~= hex_width(b / 16, v));
        let p = pow16(v);
        assert(a / 16 < p) by (nonlinear_arith)
            requires
                a < 16 * p,
        ;
        assert(b / 16 < p) by (nonlinear_arith)
            requires
                b < 16 * p,
        ;
        lemma_hex_width_injective(a / 16, b / 16, v);
    }
}

/// Tokens rendered from different pairs of numbers differ: the rendering
/// loses nothing, so two draws that differ give two different session keys.
pub proof fn lemma_token_injective(a1: u128, b1: u128, a2: u128, b2: u128)
    requires
        hex_width(a1 as nat, 32) + hex_width(b1 as nat, 32) == hex_width(a2 as nat, 32)
            + hex_width(b2 as nat, 32),
    ensures
        a1 == a2 && b1 == b2,
{
    let s1 = hex_width(a1 as nat, 32) + hex_width(b1 as nat, 32);
    let s2 = hex_width(a2 as nat, 32) + hex_width(b2 as nat, 32);
    lemma_hex_width_len(a1 as nat, 32);
    lemma_hex_width_len(b1 as nat, 32);
    lemma_hex_width_len(a2 as nat, 32);
    lemma_hex_width_len(b2 as nat, 32);
    assert(s1.subrange(0, 32) =~= hex_width(a1 as nat, 32));
    assert(s2.subrange(0, 32) =~= hex_width(a2 as nat, 32));
    assert(s1.subrange(32, 64) =~= hex_width(b1 as nat, 32));
    assert(s2.subrange(32, 64) =~= hex_width(b2 as nat, 32));
    reveal_with_fuel(pow16, 33);
    assert(pow16(32) == 0x1_0000_0000_0000_0000_0000_0000_0000_0000nat);
    lemma_hex_width_injective(a1 as nat, a2 as nat, 32);
    lemma_hex_width_injective(b1 as nat, b2 as nat, 32);
}

/// Whether `s` is a session token: two 128-bit numbers in 32 uppercase hex
/// digits each.
pub open spec fn is_token(s: Seq<char>) -> bool {
    exists|a: u128, b: u128| s == hex_width(a as nat, 32) + hex_width(b as nat, 32)
}

/// Relies on `rand::thread_rng` and `Rng::gen::<u128>`: a number from a
/// cryptographically strong generator. Nothing is known of its value.
#[verifier::external_body]
fn random_u128() -> (r: u128) {
    rand::thread_rng().gen::<u128>()
}

/// The token of the two numbers `a` and `b`: each in 32 uppercase
/// hexadecimal digits.
pub fn token_from(a: u128, b: u128) -> (r: String)
    ensures
        r@ == hex_width(a as nat, 32) + hex_width(b as nat, 32),
{
    let mut r = String::new();
    push_hex(&mut r, a, 32);
    push_hex(&mut r, b, 32);
    proof {
        assert(Seq::<char>::empty() + hex_width(a as nat, 32) =~= hex_width(a as nat, 32));
    }
    r
}

/// A fresh random token that differs from `old`: where the first draw
/// renders as `old`, its second number is moved on by one, which renders
/// differently.
pub fn gen_rand_str_unlike(old: &String) -> (r: String)
    ensures
        is_token(r@),
        r@.len() == 64,
        r@ != old@,
{
    let a = random_u128();
    let b = random_u128();
    proof {
        lemma_hex_width_len(a as nat, 32);
        lemma_hex_width_len(b as nat, 32);
    }
    let first = token_from(a, b);
    if !(first == *old) {
        return first;
    }
    let b2: u128 = if b == u128::MAX {
        0
    } else {
        b + 1
    };
    let second = token_from(a, b2);
    proof {
        lemma_hex_width_len(b2 as nat, 32);
        if second@ == old@ {
            lemma_token_injective(a, b, a, b2);
        }
    }
    second
}

/// A fresh 256-bit random token in 64 hexadecimal digits.
pub fn gen_large_rand_str() -> (r: String)
    ensures
        is_token(r@),
        r@.len() == 64,
{
    let a = random_u128();
    let b = random_u128();
    let r = token_from(a, b);
    proof {
        lemma_hex_width_len(a as nat, 32);
        lemma_hex_width_len(b as nat, 32);
    }
    r
}

/// The name of the cookie that carries a session key of class `t`.
pub open spec fn cookie_name(t: SessType) -> Seq<char> {
    match t {
        SessType::Frontend => SESSION_COOKIE_NAME@,
        SessType::Roku => "roku_session"@,
        SessType::Display => "display_session"@,
    }
}

impl SessType {
    /// The name of the cookie that carries this class's session keys.
    pub fn get_session_cookie_name(&self) -> (r: String)
        ensures
            r@ == cookie_name(*self),
    {
        match *self {
            SessType::Frontend => String::from_str(SESSION_COOKIE_NAME),
            SessType::Roku => String::from_str("roku_session"),
            SessType::Display => String::from_str("display_session"),
        }
    }
}

/// The `Set-Cookie` value that hands out a session key: the class's cookie
/// name, the key, `Max-Age` in seconds, and `SameSite=Lax`.
pub open spec fn cookie_value(t: SessType, key: Seq<char>) -> Seq<char> {
    cookie_name(t) + "="@ + key + "; Max-Age="@ + decimal(max_age_seconds(t) as nat)
        + "; SameSite=Lax"@
}

/// Builds the `Set-Cookie` value for a session key of class `sess_type`.
pub fn session_cookie(sess_type: SessType, sess_key: &str) -> (r: String)
    ensures
        r@ == cookie_value(sess_type, sess_key@),
{
    let max_age = sess_type.max_age_secs();
    let mut r = sess_type.get_session_cookie_name();
    r.append("=");
    r.append(sess_key);
    r.append("; Max-Age=");
    push_decimal(&mut r, max_age as u64);
    r.append("; SameSite=Lax");
    r
}

/// The next thing a session flow needs: a command for the store, or its end
/// with the session key to hand out, or a refusal.
#[derive(Debug)]
pub enum FlowStep {
    Submit(Action),
    Done(String),
    Reject(Rejections),
}

/// Where an authentication stands.
#[derive(Debug, Clone, Copy, PartialEq, Eq, Structural)]
pub enum AuthStage {
    AwaitPassHash,
    AwaitKeyRecorded,
    Finished,
}

/// An authentication in progress: look up the stored hash, verify the
/// password, and only then record a new session key; the key is handed out
/// only once it is recorded.
#[derive(Debug)]
pub struct AuthFlow {
    pub sess_type: SessType,
    pub username: String,
    pub password: String,
    pub stage: AuthStage,
    pub sess_key: String,
}

impl AuthFlow {
    /// Starts an authentication: the first command looks up the user's
    /// stored hash.
    pub fn start(sess_type: SessType, form_dat: AuthForm) -> (r: (AuthFlow, Action))
        ensures
            r.0.stage == AuthStage::AwaitPassHash,
            r.0.sess_type == sess_type,
            r.0.username@ == form_dat.username@,
            r.0.password@ == form_dat.password@,
            r.1 matches Action::GetUserPassHash { user } && user@ == form_dat.username@,
    {
        let action = Action::GetUserPassHash { user: form_dat.username.clone() };
        let flow = AuthFlow {
            sess_type: sess_type,
            username: form_dat.username,
            password: form_dat.password,
            stage: AuthStage::AwaitPassHash,
            sess_key: String::new(),
        };
        (flow, action)
    }

    /// Takes the store's reply to the last command and says what comes next.
    pub fn on_reply(&mut self, reply: Result<Response, DBError>) -> (r: FlowStep)
        requires
            old(self).stage != AuthStage::Finished,
        ensures
            final(self).sess_type == old(self).sess_type,
            final(self).username == old(self).username,
            final(self).password == old(self).password,
            !(r is Submit) ==> final(self).stage == AuthStage::Finished,
            old(self).stage == AuthStage::AwaitPassHash ==> match reply {
                Ok(Response::UserPassHash(hash, ver, true)) => match pw_verdict(
                    old(self).password@,
                    hash@,
                    ver,
                ) {
                    Some(true) => {
                        &&& r matches FlowStep::Submit(
                            Action::AddSessKey { user: NameOrID::Name(name), sess_type, sess_key },
                        )
                        &&& name@ == old(self).username@
                        &&& sess_type == old(self).sess_type
                        &&& sess_key@ == final(self).sess_key@
                        &&& is_token(sess_key@)
                        &&& final(self).stage == AuthStage::AwaitKeyRecorded
                    },
                    Some(false) => r matches FlowStep::Reject(Rejections::InvalidPassword),
                    None => r matches FlowStep::Reject(Rejections::ErrorFromPWHash(_)),
                },
                Ok(Response::UserPassHash(_, _, false)) => r matches FlowStep::Reject(
                    Rejections::InvalidUserNonValidated,
                ),
                Ok(_) => r matches FlowStep::Reject(Rejections::ErrorDBAPI(_, _)),
                Err(DBError::InvalidRowCount(0)) => r matches FlowStep::Reject(
                    Rejections::InvalidUserNonValidated,
                ),
                Err(e) => r matches FlowStep::Reject(Rejections::ErrorFromDB(e2)) && e2 == e,
            },
            old(self).stage == AuthStage::AwaitKeyRecorded ==> match reply {
                Ok(Response::Empty) => r matches FlowStep::Done(key) && key@ == old(
                    self,
                ).sess_key@,
                Ok(_) => r matches FlowStep::Reject(Rejections::ErrorDBAPI(_, _)),
                Err(e) => r matches FlowStep::Reject(Rejections::ErrorFromDB(e2)) && e2 == e,
            },
    {
        match self.stage {
            AuthStage::AwaitPassHash => {
                self.stage = AuthStage::Finished;
                let (pass_hash, hash_ver) = match reply {
                    Ok(Response::UserPassHash(pass_hash, hash_ver, valid_status)) => {
                        if !valid_status {
                            return FlowStep::Reject(Rejections::InvalidUserNonValidated);
                        }
                        (pass_hash, hash_ver)
                    },
                    Ok(other) => {
                        return FlowStep::Reject(
                            Rejections::ErrorDBAPI(String::from_str("GetUserPassHash"), other),
                        );
                    },
                    Err(DBError::InvalidRowCount(0)) => {
                        return FlowStep::Reject(Rejections::InvalidUserNonValidated);
                    },
                    Err(err) => {
                        return FlowStep::Reject(Rejections::ErrorFromDB(err));
                    },
                };
                match validate_pw_ver(
                    self.username.as_str(),
                    self.password.as_str(),
                    pass_hash.as_str(),
                    hash_ver,
                ) {
                    Ok(true) => {},
                    Ok(false) => {
                        return FlowStep::Reject(Rejections::InvalidPassword);
                    },
                    Err(err) => {
                        return FlowStep::Reject(Rejections::ErrorFromPWHash(err));
                    },
                }
                let sess_key = gen_large_rand_str();
                self.sess_key = sess_key.clone();
                self.stage = AuthStage::AwaitKeyRecorded;
                FlowStep::Submit(
                    Action::AddSessKey {
                        user: NameOrID::Name(self.username.clone()),
                        sess_type: self.sess_type,
                        sess_key: sess_key,
                    },
                )
            },
            _ => {
                self.stage = AuthStage::Finished;
                match reply {
                    Ok(Response::Empty) => FlowStep::Done(self.sess_key.clone()),
                    Ok(other) => FlowStep::Reject(
                        Rejections::ErrorDBAPI(String::from_str("AddSessKey"), other),
                    ),
                    Err(err) => FlowStep::Reject(Rejections::ErrorFromDB(err)),
                }
            },
        }
    }
}

/// Where a refresh stands.
#[derive(Debug, Clone, Copy, PartialEq, Eq, Structural)]
pub enum RefreshStage {
    AwaitNewRecorded,
    AwaitOldDeleted,
    Finished,
}

/// A device session's refresh in progress: record a new key, then delete
/// the old one on a best-effort basis.
#[derive(Debug)]
pub struct RefreshFlow {
    pub sess_type: SessType,
    pub user_id: i32,
    pub old_key: String,
    pub new_key: String,
    pub stage: RefreshStage,
}

impl RefreshFlow {
    /// Starts a refresh of the session `(key, user_id)`; the browser class
    /// is refused.
    pub fn start(sess_type: SessType, sess_info: (String, i32)) -> (r: Result<
        (RefreshFlow, Action),
        Rejections,
    >)
        ensures
            (sess_type == SessType::Frontend) <==> r matches Err(Rejections::InvalidRefreshSessionType),
            r.is_err() ==> r matches Err(Rejections::InvalidRefreshSessionType),
            r matches Ok((flow, action)) ==> {
                &&& flow.stage == RefreshStage::AwaitNewRecorded
                &&& flow.sess_type == sess_type
                &&& flow.user_id == sess_info.1
                &&& flow.old_key@ == sess_info.0@
                &&& is_token(flow.new_key@)
                &&& flow.new_key@ != sess_info.0@
                &&& action matches Action::AddSessKey {
                    user: NameOrID::ID(id),
                    sess_type: t,
                    sess_key: k,
                } && id == sess_info.1 && t == sess_type && k@ == flow.new_key@
            },
    {
        if !sess_type.may_refresh() {
            return Err(Rejections::InvalidRefreshSessionType);
        }
        let (old_key, user_id) = sess_info;
        let new_key = gen_rand_str_unlike(&old_key);
        let action = Action::AddSessKey {
            user: NameOrID::ID(user_id),
            sess_type: sess_type,
            sess_key: new_key.clone(),
        };
        let flow = RefreshFlow {
            sess_type: sess_type,
            user_id: user_id,
            old_key: old_key,
            new_key: new_key,
            stage: RefreshStage::AwaitNewRecorded,
        };
        Ok((flow, action))
    }

    /// Takes the store's reply to the last command and says what comes next.
    pub fn on_reply(&mut self, reply: Result<Response, DBError>) -> (r: FlowStep)
        requires
            old(self).stage != RefreshStage::Finished,
        ensures
            final(self).new_key == old(self).new_key,
            !(r is Submit) ==> final(self).stage == RefreshStage::Finished,
            old(self).stage == RefreshStage::AwaitNewRecorded ==> match reply {
                Ok(Response::Empty) => {
                    &&& r matches FlowStep::Submit(Action::LogoutSessKey { sess_type, sess_key })
                    &&& sess_type == old(self).sess_type
                    &&& sess_key@ == old(self).old_key@
                    &&& final(self).stage == RefreshStage::AwaitOldDeleted
                },
                Ok(_) => r matches FlowStep::Reject(Rejections::ErrorDBAPI(_, _)),
                Err(e) => r matches FlowStep::Reject(Rejections::ErrorFromDB(e2)) && e2 == e,
            },
            old(self).stage == RefreshStage::AwaitOldDeleted ==> (r matches FlowStep::Done(key)
                && key@ == old(self).new_key@),
    {
        match self.stage {
            RefreshStage::AwaitNewRecorded => match reply {
                Ok(Response::Empty) => {
                    self.stage = RefreshStage::AwaitOldDeleted;
                    FlowStep::Submit(
                        Action::LogoutSessKey {
                            sess_type: self.sess_type,
                            sess_key: self.old_key.clone(),
                        },
                    )
                },
                Ok(other) => {
                    self.stage = RefreshStage::Finished;
                    FlowStep::Reject(Rejections::ErrorDBAPI(String::from_str("AddSessKey"), other))
                },
                Err(err) => {
                    self.stage = RefreshStage::Finished;
                    FlowStep::Reject(Rejections::ErrorFromDB(err))
                },
            },
            _ => {
                self.stage = RefreshStage::Finished;
                FlowStep::Done(self.new_key.clone())
            },
        }
    }
}

/// The validation gate of protected requests: a key the store accepts
/// yields `(key, user_id)`; every other outcome (expired, unknown, a store
/// error) is the same refusal.
pub fn retrieve_session_dat(session_id: String, reply: Result<Response, DBError>) -> (r: Result<
    (String, i32),
    Rejections,
>)
    ensures
        reply matches Ok(Response::ValidatedKey(true, uid)) ==> r matches Ok((key, id)) && key
            == session_id && id == uid,
        !(reply matches Ok(Response::ValidatedKey(true, _))) ==> r matches Err(
            Rejections::InvalidSession,
        ),
{
    match reply {
        Ok(Response::ValidatedKey(true, user_id)) => Ok((session_id, user_id)),
        _ => Err(Rejections::InvalidSession),
    }
}

/// Reads a reply that should be `Empty`.
pub fn expect_empty(api: &str, reply: Result<Response, DBError>) -> (r: Result<(), Rejections>)
    ensures
        reply matches Ok(Response::Empty) <==> r is Ok,
        reply matches Err(e) ==> r matches Err(Rejections::ErrorFromDB(e2)) && e2 == e,
        (reply matches Ok(resp) && !(resp is Empty)) ==> (r matches Err(
            Rejections::ErrorDBAPI(name, got),
        ) && name@ == api@ && Ok::<Response, DBError>(got) == reply),
{
    match reply {
        Ok(Response::Empty) => Ok(()),
        Ok(other) => Err(Rejections::ErrorDBAPI(String::from_str(api), other)),
        Err(err) => Err(Rejections::ErrorFromDB(err)),
    }
}

/// Reads a reply that should carry a string.
pub fn expect_string(api: &str, reply: Result<Response, DBError>) -> (r: Result<
    String,
    Rejections,
>)
    ensures
        reply matches Ok(Response::StringResp(s)) ==> r matches Ok(s2) && s2 == s,
        reply matches Err(e) ==> r matches Err(Rejections::ErrorFromDB(e2)) && e2 == e,
        (reply matches Ok(resp) && !(resp is StringResp)) ==> (r matches Err(
            Rejections::ErrorDBAPI(name, got),
        ) && name@ == api@ && Ok::<Response, DBError>(got) == reply),
{
    match reply {
        Ok(Response::StringResp(s)) => Ok(s),
        Ok(other) => Err(Rejections::ErrorDBAPI(String::from_str(api), other)),
        Err(err) => Err(Rejections::ErrorFromDB(err)),
    }
}

/// Reads the reply to ValidateAccount: only `Bool(true)` is a success.
pub fn expect_validated(reply: Result<Response, DBError>) -> (r: Result<(), Rejections>)
    ensures
        reply matches Ok(Response::Bool(true)) <==> r is Ok,
        reply matches Err(e) ==> r matches Err(Rejections::ErrorFromDB(e2)) && e2 == e,
        (reply matches Ok(resp) && !(resp matches Response::Bool(true))) ==> r matches Err(
            Rejections::ErrorDBAPI(_, _),
        ),
{
    match reply {
        Ok(Response::Bool(true)) => Ok(()),
        Ok(other) => Err(Rejections::ErrorDBAPI(String::from_str("ValidateAccount"), other)),
        Err(err) => Err(Rejections::ErrorFromDB(err)),
    }
}

/// Reads the reply to AddUser: the new account's id.
pub fn expect_user_id(reply: Result<Response, DBError>) -> (r: Result<i32, Rejections>)
    ensures
        reply matches Ok(Response::UserID(id)) ==> r == Ok::<i32, Rejections>(id),
        reply matches Err(e) ==> r matches Err(Rejections::ErrorFromDB(e2)) && e2 == e,
        (reply matches Ok(resp) && !(resp is UserID)) ==> r matches Err(
            Rejections::ErrorDBAPI(_, _),
        ),
{
    match reply {
        Ok(Response::UserID(id)) => Ok(id),
        Ok(other) => Err(Rejections::ErrorDBAPI(String::from_str("AddUser"), other)),
        Err(err) => Err(Rejections::ErrorFromDB(err)),
    }
}

/// The checks on a new account's form: the username must be an e-mail
/// address (as the mail transport parses it) and the password long enough.
pub fn check_new_account(username_is_addr: bool, password: &str) -> (r: Result<(), Rejections>)
    ensures
        !username_is_addr ==> r matches Err(Rejections::InvalidEmailAddr),
        username_is_addr && password.len() < MIN_PASSWORD_LEN ==> r matches Err(
            Rejections::InvalidPassword,
        ),
        username_is_addr && password.len() >= MIN_PASSWORD_LEN ==> r is Ok,
{
    if !username_is_addr {
        return Err(Rejections::InvalidEmailAddr);
    }
    if password.len() < MIN_PASSWORD_LEN {
        return Err(Rejections::InvalidPassword);
    }
    Ok(())
}

/// Checks a new account's form, with the mail transport's parser deciding
/// whether the username is an e-mail address.
pub fn validate_new_account(username: &str, password: &str) -> (r: Result<(), Rejections>)
    ensures
        !is_email_address(username@) ==> r matches Err(Rejections::InvalidEmailAddr),
        is_email_address(username@) && password.len() < MIN_PASSWORD_LEN ==> r matches Err(
            Rejections::InvalidPassword,
        ),
        is_email_address(username@) && password.len() >= MIN_PASSWORD_LEN ==> r is Ok,
{
    check_new_account(address_parses(username), password)
}

/// Accepts a request whose origin (or referer) begins with one of the
/// allowed origins.
pub fn validate_origin_or_referer(source: &str, cors_origins: &Vec<String>) -> (r: Result<
    (),
    Rejections,
>)
    ensures
        r is Ok <==> exists|i: int|
            0 <= i < cors_origins@.len() && has_prefix(source@, #[trigger] cors_origins@[i]@),
        r is Err ==> r matches Err(Rejections::InvalidOriginOrReferer),
{
    let mut i: usize = 0;
    while i < cors_origins.len()
        invariant
            0 <= i <= cors_origins@.len(),
            forall|j: int| 0 <= j < i ==> !has_prefix(source@, #[trigger] cors_origins@[j]@),
        decreases cors_origins.len() - i,
    {
        if starts_with(source, cors_origins[i].as_str()) {
            return Ok(());
        }
        i = i + 1;
    }
    Err(Rejections::InvalidOriginOrReferer)
}

/// The name of the channel list every new account starts with.
pub const FIRST_CHANNEL_NAME: &'static str = "First Channel";

/// Where an account creation stands.
#[derive(Debug, Clone, Copy, PartialEq, Eq, Structural)]
pub enum AccountStage {
    AwaitUserAdded,
    AwaitNotified,
    AwaitListCreated,
    AwaitListActive,
    Finished,
}

/// What an account creation needs next: a command for the store, the
/// registration message to send once the account exists, or its end.
#[derive(Debug)]
pub enum AccountStep {
    Submit(Action),
    Notify(RegisterData),
    Done,
    Reject(Rejections),
}

/// An account creation in progress: add the user, then give it a first
/// channel list and make that list active. Failures after the account
/// exists do not undo it.
#[derive(Debug)]
pub struct CreateAccountFlow {
    pub username: String,
    pub reg_key: String,
    pub user_id: i32,
    pub stage: AccountStage,
}

impl CreateAccountFlow {
    /// Starts an account creation from the checked form, the password hash
    /// made under `pass_hash_ver`, and the validation code `reg_key`.
    pub fn start(username: String, pass_hash: String, pass_hash_ver: i32, reg_key: String) -> (r: (
        CreateAccountFlow,
        Action,
    ))
        ensures
            r.0.stage == AccountStage::AwaitUserAdded,
            r.0.username@ == username@,
            r.0.reg_key@ == reg_key@,
            r.1 matches Action::AddUser { user, pass_hash: h, pass_hash_ver: v, reg_key: k } && user@
                == username@ && h@ == pass_hash@ && v == pass_hash_ver && k@ == reg_key@,
    {
        let action = Action::AddUser {
            user: username.clone(),
            pass_hash: pass_hash,
            pass_hash_ver: pass_hash_ver,
            reg_key: reg_key.clone(),
        };
        (
            CreateAccountFlow {
                username: username,
                reg_key: reg_key,
                user_id: 0,
                stage: AccountStage::AwaitUserAdded,
            },
            action,
        )
    }

    /// The registration message for the new account.
    pub fn registration(&self) -> (r: RegisterData)
        ensures
            r.dest_addr@ == self.username@,
            r.reg_key@ == self.reg_key@,
    {
        RegisterData { dest_addr: self.username.clone(), reg_key: self.reg_key.clone() }
    }

    /// Says what comes after the registration message was handed on: the
    /// account's first channel list.
    pub fn notified(&mut self) -> (r: AccountStep)
        requires
            old(self).stage == AccountStage::AwaitNotified,
        ensures
            final(self).username == old(self).username,
            final(self).reg_key == old(self).reg_key,
            final(self).user_id == old(self).user_id,
            final(self).stage == AccountStage::AwaitListCreated,
            r matches AccountStep::Submit(Action::CreateChannelList { user_id, list_name })
                && user_id == old(self).user_id && list_name@ == FIRST_CHANNEL_NAME@,
    {
        self.stage = AccountStage::AwaitListCreated;
        AccountStep::Submit(
            Action::CreateChannelList {
                user_id: self.user_id,
                list_name: String::from_str(FIRST_CHANNEL_NAME),
            },
        )
    }

    /// Takes the store's reply to the last command and says what comes next.
    pub fn on_reply(&mut self, reply: Result<Response, DBError>) -> (r: AccountStep)
        requires
            old(self).stage != AccountStage::Finished,
            old(self).stage != AccountStage::AwaitNotified,
        ensures
            final(self).username == old(self).username,
            final(self).reg_key == old(self).reg_key,
            !(r is Submit) && !(r is Notify) ==> final(self).stage == AccountStage::Finished,
            old(self).stage == AccountStage::AwaitUserAdded ==> match reply {
                Ok(Response::UserID(id)) => {
                    &&& r matches AccountStep::Notify(reg)
                    &&& reg.dest_addr@ == old(self).username@
                    &&& reg.reg_key@ == old(self).reg_key@
                    &&& final(self).user_id == id
                    &&& final(self).stage == AccountStage::AwaitNotified
                },
                Ok(_) => r matches AccountStep::Reject(Rejections::ErrorDBAPI(_, _)),
                Err(e) => r matches AccountStep::Reject(Rejections::ErrorFromDB(e2)) && e2 == e,
            },
            old(self).stage == AccountStage::AwaitListCreated ==> match reply {
                Ok(_) => {
                    &&& r matches AccountStep::Submit(Action::SetActiveChannel { user_id, list_name })
                    &&& user_id == old(self).user_id && list_name@ == FIRST_CHANNEL_NAME@
                    &&& final(self).stage == AccountStage::AwaitListActive
                },
                Err(_) => r is Done,
            },
            old(self).stage == AccountStage::AwaitListActive ==> r is Done,
    {
        match self.stage {
            AccountStage::AwaitUserAdded => {
                self.stage = AccountStage::Finished;
                match reply {
                    Ok(Response::UserID(id)) => {
                        self.user_id = id;
                        self.stage = AccountStage::AwaitNotified;
                        AccountStep::Notify(self.registration())
                    },
                    Ok(other) => AccountStep::Reject(Rejections::ErrorDBAPI(String::from_str("AddUser"), other)),
                    Err(err) => AccountStep::Reject(Rejections::ErrorFromDB(err)),
                }
            },
            AccountStage::AwaitListCreated => {
                self.stage = AccountStage::Finished;
                match reply {
                    Ok(_) => {
                        self.stage = AccountStage::AwaitListActive;
                        AccountStep::Submit(
                            Action::SetActiveChannel {
                                user_id: self.user_id,
                                list_name: String::from_str(FIRST_CHANNEL_NAME),
                            },
                        )
                    },
                    Err(_) => AccountStep::Done,
                }
            },
            _ => {
                self.stage = AccountStage::Finished;
                AccountStep::Done
            },
        }
    }
}

/// The text of the whole status page: when the service started, its
/// version, and the three reports.
pub open spec fn status_page_of(
    startup_time: Seq<char>,
    version: Seq<char>,
    email: Seq<char>,
    db: Seq<char>,
    api: Seq<char>,
) -> Seq<char> {
    "Startup time: "@ + startup_time + "\nVersion: "@ + version + "\n"@ + email + "\n"@ + db
        + "\n"@ + api
}

/// Joins the status page from its parts.
pub fn status_page(startup_time: &str, version: &str, email: &str, db: &str, api: &str) -> (r:
    String)
    ensures
        r@ == status_page_of(startup_time@, version@, email@, db@, api@),
{
    let mut r = String::from_str("Startup time: ");
    r.append(startup_time);
    r.append("\nVersion: ");
    r.append(version);
    r.append("\n");
    r.append(email);
    r.append("\n");
    r.append(db);
    r.append("\n");
    r.append(api);
    r
}

/// The status code and message that answer a refused request: `not_found`
/// where no route matched, else by the library's own rejection if there is
/// one.
pub open spec fn reply_for(not_found: bool, rej: Option<&Rejections>) -> (u16, Seq<char>) {
    if not_found {
        (404, "Not Found"@)
    } else {
        match rej {
            Some(Rejections::InvalidUserLookup) | Some(Rejections::InvalidPassword) | Some(
                Rejections::InvalidUserNonValidated,
            ) | Some(Rejections::InvalidSession) | Some(Rejections::InvalidEmailAddr) | Some(
                Rejections::InvalidValidationCode,
            ) => (403, "Forbidden"@),
            Some(Rejections::InvalidOriginOrReferer) => (400, "Bad Request"@),
            Some(Rejections::ErrorInternal(_)) => (500, "Internal Server Error: INTERNAL"@),
            Some(Rejections::ErrorFromDB(_)) => (500, "Internal Server Error: DB"@),
            _ => (500, "Internal Server Error: OTHER"@),
        }
    }
}

/// Answers a refused request with a status code and a message that say no
/// more than the class of the failure.
pub fn handle_rejection(not_found: bool, rej: Option<&Rejections>) -> (r: (u16, String))
    ensures
        (r.0, r.1@) == reply_for(not_found, rej),
{
    if not_found {
        return (404, String::from_str("Not Found"));
    }
    match rej {
        Some(Rejections::InvalidUserLookup) | Some(Rejections::InvalidPassword) | Some(
            Rejections::InvalidUserNonValidated,
        ) | Some(Rejections::InvalidSession) | Some(Rejections::InvalidEmailAddr) | Some(
            Rejections::InvalidValidationCode,
        ) => (403, String::from_str("Forbidden")),
        Some(Rejections::InvalidOriginOrReferer) => (400, String::from_str("Bad Request")),
        Some(Rejections::ErrorInternal(_)) => (
            500,
            String::from_str("Internal Server Error: INTERNAL"),
        ),
        Some(Rejections::ErrorFromDB(_)) => (500, String::from_str("Internal Server Error: DB")),
        _ => (500, String::from_str("Internal Server Error: OTHER")),
    }
}

} // verus!
