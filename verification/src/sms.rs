use vstd::prelude::*;
use crate::text::{
    is_digit, lemma_digits_spec_are_digits, lemma_digits_spec_fixpoint,
    digits_only, digits_spec, is_blank, lowercase_of, str_eq, to_lower, trim, trim_spec, all_ws,
};

verus! {

/// Login page used when no portal address is configured.
pub open spec fn default_portal_url() -> Seq<char> {
    "https://frontend-pratibha-inst.vercel.app/login"@
}

/// The portal address to print: the given one, or the default login page
/// when the given one is blank.
pub open spec fn portal_url_spec(portal_url: Seq<char>) -> Seq<char> {
    if trim_spec(portal_url).len() == 0 {
        default_portal_url()
    } else {
        portal_url
    }
}

/// The portal address to print in a welcome message.
pub fn portal_url_or_default(portal_url: &str) -> (r: &str)
    ensures
        r@ == portal_url_spec(portal_url@),
{
    if is_blank(portal_url) {
        "https://frontend-pratibha-inst.vercel.app/login"
    } else {
        portal_url
    }
}

/// Text of the student enrolment SMS.
pub open spec fn student_welcome_sms_spec(
    student_name: Seq<char>,
    student_id: Seq<char>,
    default_password: Seq<char>,
    portal_url: Seq<char>,
) -> Seq<char> {
    "Dear "@ + student_name + ", Welcome to Pratibha Inst of Nursing! ID: "@ + student_id
        + ", Pass: "@ + default_password + ". Portal: "@ + portal_url_spec(portal_url)
}

/// Concise SMS with a new student's login credentials.
pub fn build_student_welcome_sms(
    student_name: &str,
    student_id: &str,
    default_password: &str,
    portal_url: &str,
) -> (r: String)
    ensures
        r@ == student_welcome_sms_spec(student_name@, student_id@, default_password@, portal_url@),
{
    let url_clean = portal_url_or_default(portal_url);
    let mut r = String::from_str("Dear ");
    r.append(student_name);
    r.append(", Welcome to Pratibha Inst of Nursing! ID: ");
    r.append(student_id);
    r.append(", Pass: ");
    r.append(default_password);
    r.append(". Portal: ");
    r.append(url_clean);
    r
}

/// Text of the staff onboarding SMS.
pub open spec fn staff_welcome_sms_spec(
    staff_name: Seq<char>,
    role_title: Seq<char>,
    login_email: Seq<char>,
    default_password: Seq<char>,
    portal_url: Seq<char>,
) -> Seq<char> {
    "Hello "@ + staff_name + ", Your "@ + role_title + " account at Pratibha ERP is active! User: "@
        + login_email + ", Pass: "@ + default_password + ". Portal: "@ + portal_url_spec(
        portal_url,
    )
}

/// Concise SMS with a new staff member's login credentials.
pub fn build_staff_welcome_sms(
    staff_name: &str,
    role_title: &str,
    login_email: &str,
    default_password: &str,
    portal_url: &str,
) -> (r: String)
    ensures
        r@ == staff_welcome_sms_spec(
            staff_name@,
            role_title@,
            login_email@,
            default_password@,
            portal_url@,
        ),
{
    let url_clean = portal_url_or_default(portal_url);
    let mut r = String::from_str("Hello ");
    r.append(staff_name);
    r.append(", Your ");
    r.append(role_title);
    r.append(" account at Pratibha ERP is active! User: ");
    r.append(login_email);
    r.append(", Pass: ");
    r.append(default_password);
    r.append(". Portal: ");
    r.append(url_clean);
    r
}

/// Title of a fee kind in receipts: the lower-cased kind `hostel`,
/// `transport` or `library` gives its capitalised name, anything else is
/// tuition.
pub open spec fn fee_title_spec(fee_type: Seq<char>) -> Seq<char> {
    let l = lowercase_of(fee_type);
    if l == "hostel"@ {
        "Hostel"@
    } else if l == "transport"@ {
        "Transport"@
    } else if l == "library"@ {
        "Library"@
    } else {
        "Tuition"@
    }
}

/// The fee title printed on a payment receipt message.
pub fn fee_title(fee_type: &str) -> (r: &'static str)
    ensures
        r@ == fee_title_spec(fee_type@),
{
    let l = to_lower(fee_type);
    if str_eq(l.as_str(), "hostel") {
        "Hostel"
    } else if str_eq(l.as_str(), "transport") {
        "Transport"
    } else if str_eq(l.as_str(), "library") {
        "Library"
    } else {
        "Tuition"
    }
}

/// The number to text for a receipt: the student's own phone when there is
/// one, else the parent's; nothing when the chosen number is blank (a blank
/// student phone does not fall back to the parent's).
pub open spec fn target_phone_spec(phone: Option<Seq<char>>, parent_phone: Option<Seq<char>>) -> Option<
    Seq<char>,
> {
    let chosen = match phone {
        Some(p) => Some(p),
        None => parent_phone,
    };
    match chosen {
        Some(p) => if trim_spec(p).len() == 0 {
            None
        } else {
            Some(p)
        },
        None => None,
    }
}

/// The view of an optional text.
pub open spec fn opt_view(o: Option<String>) -> Option<Seq<char>> {
    match o {
        Some(s) => Some(s@),
        None => None,
    }
}

/// Picks the phone number that a fee receipt message goes to.
pub fn select_target_phone(phone: Option<String>, parent_phone: Option<String>) -> (r: Option<
    String,
>)
    ensures
        opt_view(r) == target_phone_spec(opt_view(phone), opt_view(parent_phone)),
{
    let chosen = match phone {
        Some(p) => Some(p),
        None => parent_phone,
    };
    match chosen {
        Some(p) => {
            if is_blank(p.as_str()) {
                None
            } else {
                Some(p)
            }
        },
        None => None,
    }
}

/// The ten-digit mobile number of a phone text: its digits, cut to the
/// last ten when there are more (a `+91` prefix); `None` when fewer than ten
/// digits remain.
pub open spec fn sms_phone_spec(to_phone: Seq<char>) -> Option<Seq<char>> {
    let d = digits_spec(to_phone);
    let p = if d.len() > 10 {
        d.subrange(d.len() - 10, d.len() as int)
    } else {
        d
    };
    if p.len() == 10 {
        Some(p)
    } else {
        None
    }
}

/// Normalises a phone text to the ten-digit number that SMS goes to.
pub fn sms_phone_number(to_phone: &str) -> (r: Option<String>)
    ensures
        opt_view(r) == sms_phone_spec(to_phone@),
{
    let clean = digits_only(to_phone);
    let n = clean.as_str().unicode_len();
    let number = if n > 10 {
        String::from_str(clean.as_str().substring_char(n - 10, n))
    } else {
        clean
    };
    if number.as_str().unicode_len() != 10 {
        None
    } else {
        Some(number)
    }
}

/// What the SMS sender does with one message.
#[derive(Debug)]
pub enum SmsPlan {
    /// SMS notifications are switched off.
    Disabled,
    /// The number does not have ten digits.
    InvalidNumber,
    /// No API key is configured.
    MissingApiKey,
    /// Send through Fast2SMS to `phone` with the trimmed `api_key`.
    Fast2Sms { phone: String, api_key: String },
    /// Send through Twilio to `phone` with the trimmed `api_key`.
    Twilio { phone: String, api_key: String },
    /// Send through MSG91 to `phone` with the trimmed `api_key`.
    Msg91 { phone: String, api_key: String },
    /// The configured provider is not supported; nothing is sent.
    UnsupportedProvider,
}

/// Decides how an SMS is sent: the checks run in the order enabled, number,
/// API key, provider; the `fast2sms`, `twilio` and `msg91` providers (any
/// letter case) send, any other provider sends nothing.
pub fn plan_sms(enabled: bool, to_phone: &str, api_key: &str, provider: &str) -> (r: SmsPlan)
    ensures
        !enabled ==> r is Disabled,
        enabled && sms_phone_spec(to_phone@) is None ==> r is InvalidNumber,
        enabled && sms_phone_spec(to_phone@) is Some && all_ws(api_key@) ==> r is MissingApiKey,
        enabled && sms_phone_spec(to_phone@) is Some && !all_ws(api_key@) ==> (if lowercase_of(
            provider@,
        ) == "fast2sms"@ {
            r matches SmsPlan::Fast2Sms { phone, api_key: key } && Some(phone@) == sms_phone_spec(
                to_phone@,
            ) && key@ == trim_spec(api_key@)
        } else if lowercase_of(provider@) == "twilio"@ {
            r matches SmsPlan::Twilio { phone, api_key: key } && Some(phone@) == sms_phone_spec(
                to_phone@,
            ) && key@ == trim_spec(api_key@)
        } else if lowercase_of(provider@) == "msg91"@ {
            r matches SmsPlan::Msg91 { phone, api_key: key } && Some(phone@) == sms_phone_spec(
                to_phone@,
            ) && key@ == trim_spec(api_key@)
        } else {
            r is UnsupportedProvider
        }),
{
    if !enabled {
        return SmsPlan::Disabled;
    }
    let phone = match sms_phone_number(to_phone) {
        Some(p) => p,
        None => {
            return SmsPlan::InvalidNumber;
        },
    };
    if is_blank(api_key) {
        return SmsPlan::MissingApiKey;
    }
    let p = to_lower(provider);
    if str_eq(p.as_str(), "fast2sms") {
        SmsPlan::Fast2Sms { phone, api_key: String::from_str(trim(api_key)) }
    } else if str_eq(p.as_str(), "twilio") {
        SmsPlan::Twilio { phone, api_key: String::from_str(trim(api_key)) }
    } else if str_eq(p.as_str(), "msg91") {
        SmsPlan::Msg91 { phone, api_key: String::from_str(trim(api_key)) }
    } else {
        SmsPlan::UnsupportedProvider
    }
}

/// Normalising an SMS number twice changes nothing more: a ten-digit
/// number maps to itself.
pub proof fn law_sms_number_idempotent(to_phone: Seq<char>)
    ensures
        sms_phone_spec(to_phone) matches Some(p) ==> sms_phone_spec(p) == Some(p),
{
    let d = digits_spec(to_phone);
    lemma_digits_spec_are_digits(to_phone);
    if let Some(p) = sms_phone_spec(to_phone) {
        assert forall|i: int| 0 <= i < p.len() implies is_digit(#[trigger] p[i]) by {
            if d.len() > 10 {
                assert(p[i] == d[d.len() - 10 + i]);
            }
        }
        lemma_digits_spec_fixpoint(p);
    }
}

} // verus!
