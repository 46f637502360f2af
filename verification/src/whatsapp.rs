use vstd::prelude::*;
use crate::sms::{opt_view, portal_url_spec, portal_url_or_default};
use crate::text::{
    is_digit, lemma_digits_spec_are_digits, lemma_digits_spec_fixpoint, all_ws, digits_only, digits_spec, is_blank, lowercase_of, str_eq, to_lower, trim, trim_spec,
};

verus! {

/// A request to send one WhatsApp message.
#[derive(Debug)]
pub struct SendWhatsAppPayload {
    pub phone_number: String,
    pub message: String,
    pub template_name: Option<String>,
}

/// The WhatsApp gateway settings as reported to the front end.
#[derive(Debug)]
pub struct WhatsAppStatusResponse {
    pub enabled: bool,
    pub provider: String,
    pub phone_number_id_configured: bool,
    pub api_key_configured: bool,
}

/// The gateway settings as the status screen reports them: a key or a
/// phone-number id counts as configured when it is not blank, as the
/// sender reads them.
pub fn whatsapp_status(enabled: bool, provider: &str, phone_number_id: &str, api_key: &str) -> (r:
    WhatsAppStatusResponse)
    ensures
        r.enabled == enabled,
        r.provider@ == provider@,
        r.phone_number_id_configured == !all_ws(phone_number_id@),
        r.api_key_configured == !all_ws(api_key@),
{
    WhatsAppStatusResponse {
        enabled,
        provider: String::from_str(provider),
        phone_number_id_configured: !is_blank(phone_number_id),
        api_key_configured: !is_blank(api_key),
    }
}

/// Text of the student enrolment WhatsApp message.
pub open spec fn student_welcome_whatsapp_spec(
    student_name: Seq<char>,
    student_id: Seq<char>,
    default_password: Seq<char>,
    portal_url: Seq<char>,
) -> Seq<char> {
    "🎓 *Welcome to Pratibha Institute of Nursing*\n\nDear *"@ + student_name
        + "*,\n\nYour student portal account has been created!\n\n• *Student ID:* "@ + student_id
        + "\n• *Default Password:* "@ + default_password + "\n• *Portal Link:* "@
        + portal_url_spec(portal_url) + "\n\nPlease log in and update your password immediately."@
}

/// WhatsApp message with a new student's login credentials.
pub fn build_student_welcome_whatsapp(
    student_name: &str,
    student_id: &str,
    default_password: &str,
    portal_url: &str,
) -> (r: String)
    ensures
        r@ == student_welcome_whatsapp_spec(
            student_name@,
            student_id@,
            default_password@,
            portal_url@,
        ),
{
    let url_clean = portal_url_or_default(portal_url);
    let mut r = String::from_str("🎓 *Welcome to Pratibha Institute of Nursing*\n\nDear *");
    r.append(student_name);
    r.append("*,\n\nYour student portal account has been created!\n\n• *Student ID:* ");
    r.append(student_id);
    r.append("\n• *Default Password:* ");
    r.append(default_password);
    r.append("\n• *Portal Link:* ");
    r.append(url_clean);
    r.append("\n\nPlease log in and update your password immediately.");
    r
}

/// Text of the staff onboarding WhatsApp message.
pub open spec fn staff_welcome_whatsapp_spec(
    staff_name: Seq<char>,
    role_title: Seq<char>,
    login_email: Seq<char>,
    default_password: Seq<char>,
    portal_url: Seq<char>,
) -> Seq<char> {
    "🏥 *Welcome to Pratibha ERP Portal*\n\nHello *"@ + staff_name + "*,\n\nYour *"@ + role_title
        + "* account is now active.\n\n• *Login Email:* "@ + login_email + "\n• *Password:* "@
        + default_password + "\n• *Portal Link:* "@ + portal_url_spec(portal_url)
        + "\n\nThank you for joining our team!"@
}

/// WhatsApp message with a new staff member's login credentials.
pub fn build_staff_welcome_whatsapp(
    staff_name: &str,
    role_title: &str,
    login_email: &str,
    default_password: &str,
    portal_url: &str,
) -> (r: String)
    ensures
        r@ == staff_welcome_whatsapp_spec(
            staff_name@,
            role_title@,
            login_email@,
            default_password@,
            portal_url@,
        ),
{
    let url_clean = portal_url_or_default(portal_url);
    let mut r = String::from_str("🏥 *Welcome to Pratibha ERP Portal*\n\nHello *");
    r.append(staff_name);
    r.append("*,\n\nYour *");
    r.append(role_title);
    r.append("* account is now active.\n\n• *Login Email:* ");
    r.append(login_email);
    r.append("\n• *Password:* ");
    r.append(default_password);
    r.append("\n• *Portal Link:* ");
    r.append(url_clean);
    r.append("\n\nThank you for joining our team!");
    r
}

/// The international number a WhatsApp message goes to: the digits of the
/// phone text, with country code `91` put in front of a ten-digit number;
/// `None` when there are no digits.
pub open spec fn whatsapp_phone_spec(to_phone: Seq<char>) -> Option<Seq<char>> {
    let d = digits_spec(to_phone);
    if d.len() == 0 {
        None
    } else if d.len() == 10 {
        Some("91"@ + d)
    } else {
        Some(d)
    }
}

/// Normalises a phone text to the number that WhatsApp goes to.
pub fn whatsapp_phone_number(to_phone: &str) -> (r: Option<String>)
    ensures
        opt_view(r) == whatsapp_phone_spec(to_phone@),
{
    let clean = digits_only(to_phone);
    let n = clean.as_str().unicode_len();
    if n == 0 {
        None
    } else if n == 10 {
        let mut r = String::from_str("91");
        r.append(clean.as_str());
        Some(r)
    } else {
        Some(clean)
    }
}

/// Which gateway API carries a message.
#[derive(Debug)]
pub enum WhatsAppProvider {
    /// Meta's Cloud API (`meta` or `facebook`).
    Meta,
    /// The UltraMsg API.
    UltraMsg,
    /// Any other provider: the message is only logged.
    LogOnly,
}

/// The gateway that a configured provider name selects, by its lower-cased
/// form.
pub open spec fn provider_spec(provider: Seq<char>) -> WhatsAppProvider {
    let l = lowercase_of(provider);
    if l == "meta"@ || l == "facebook"@ {
        WhatsAppProvider::Meta
    } else if l == "ultramsg"@ {
        WhatsAppProvider::UltraMsg
    } else {
        WhatsAppProvider::LogOnly
    }
}

/// The Meta Cloud API endpoint for a phone-number id, with a placeholder id
/// when none is configured.
pub open spec fn meta_url_spec(phone_number_id: Seq<char>) -> Seq<char> {
    let id = if trim_spec(phone_number_id).len() == 0 {
        "YOUR_PHONE_NUMBER_ID"@
    } else {
        trim_spec(phone_number_id)
    };
    "https://graph.facebook.com/v18.0/"@ + id + "/messages"@
}

/// The UltraMsg endpoint for an instance id.
pub open spec fn ultramsg_url_spec(phone_number_id: Seq<char>) -> Seq<char> {
    "https://api.ultramsg.com/"@ + trim_spec(phone_number_id) + "/messages/chat"@
}

/// What the WhatsApp sender does with one message.
#[derive(Debug)]
pub enum WhatsAppPlan {
    /// WhatsApp notifications are switched off.
    Disabled,
    /// The phone text holds no digits.
    EmptyNumber,
    /// In production without an API key nothing is sent.
    MissingApiKey,
    /// Send through `provider` to `url`, for `phone`, with the trimmed key.
    Send { provider: WhatsAppProvider, url: String, phone: String, api_key: String },
}

/// Decides how a WhatsApp message is sent. The checks run in the order
/// enabled, number, API key (required only when `node_env` is
/// `production`); then the provider picks the endpoint. For the log-only
/// provider the endpoint is empty.
pub fn plan_whatsapp(
    enabled: bool,
    to_phone: &str,
    api_key: &str,
    node_env: &str,
    provider: &str,
    phone_number_id: &str,
) -> (r: WhatsAppPlan)
    ensures
        !enabled ==> r is Disabled,
        enabled && whatsapp_phone_spec(to_phone@) is None ==> r is EmptyNumber,
        enabled && whatsapp_phone_spec(to_phone@) is Some && all_ws(api_key@) && node_env@
            == "production"@ ==> r is MissingApiKey,
        enabled && whatsapp_phone_spec(to_phone@) is Some && !(all_ws(api_key@) && node_env@
            == "production"@) ==> (r matches WhatsAppPlan::Send { provider: p, url, phone, api_key: k }
            && p == provider_spec(provider@) && Some(phone@) == whatsapp_phone_spec(to_phone@)
            && k@ == trim_spec(api_key@) && url@ == (match p {
            WhatsAppProvider::Meta => meta_url_spec(phone_number_id@),
            WhatsAppProvider::UltraMsg => ultramsg_url_spec(phone_number_id@),
            WhatsAppProvider::LogOnly => Seq::<char>::empty(),
        })),
{
    if !enabled {
        return WhatsAppPlan::Disabled;
    }
    let phone = match whatsapp_phone_number(to_phone) {
        Some(p) => p,
        None => {
            return WhatsAppPlan::EmptyNumber;
        },
    };
    if is_blank(api_key) && str_eq(node_env, "production") {
        return WhatsAppPlan::MissingApiKey;
    }
    let key = String::from_str(trim(api_key));
    let l = to_lower(provider);
    let id = trim(phone_number_id);
    if str_eq(l.as_str(), "meta") || str_eq(l.as_str(), "facebook") {
        let mut url = String::from_str("https://graph.facebook.com/v18.0/");
        if is_blank(phone_number_id) {
            url.append("YOUR_PHONE_NUMBER_ID");
        } else {
            url.append(id);
        }
        url.append("/messages");
        WhatsAppPlan::Send { provider: WhatsAppProvider::Meta, url, phone, api_key: key }
    } else if str_eq(l.as_str(), "ultramsg") {
        let mut url = String::from_str("https://api.ultramsg.com/");
        url.append(id);
        url.append("/messages/chat");
        WhatsAppPlan::Send { provider: WhatsAppProvider::UltraMsg, url, phone, api_key: key }
    } else {
        WhatsAppPlan::Send { provider: WhatsAppProvider::LogOnly, url: String::new(), phone, api_key: key }
    }
}

/// Normalising a WhatsApp number twice changes nothing more: a number that
/// is already normalised maps to itself.
pub proof fn law_whatsapp_number_idempotent(to_phone: Seq<char>)
    ensures
        whatsapp_phone_spec(to_phone) matches Some(p) ==> whatsapp_phone_spec(p) == Some(p),
{
    let d = digits_spec(to_phone);
    lemma_digits_spec_are_digits(to_phone);
    if d.len() == 10 {
        reveal_strlit("91");
        let p = "91"@ + d;
        assert(p[0] == '9' && p[1] == '1');
        assert forall|i: int| 0 <= i < p.len() implies is_digit(#[trigger] p[i]) by {
            if i >= 2 {
                assert(p[i] == d[i - 2]);
            }
        }
        lemma_digits_spec_fixpoint(p);
    } else if d.len() > 0 {
        lemma_digits_spec_fixpoint(d);
    }
}

} // verus!
