use pratibha_erp::jwt::{parse_expiry, parse_expiry_checked, parse_i64};
use pratibha_erp::sms::{
    build_staff_welcome_sms, build_student_welcome_sms, fee_title, plan_sms, portal_url_or_default,
    select_target_phone, sms_phone_number, SmsPlan,
};
use pratibha_erp::whatsapp::{
    build_staff_welcome_whatsapp, build_student_welcome_whatsapp, plan_whatsapp,
    whatsapp_phone_number, WhatsAppPlan, WhatsAppProvider,
};

const PORTAL: &str = "https://frontend-pratibha-inst.vercel.app/login";

#[test]
fn student_welcome_sms_text() {
    let m = build_student_welcome_sms("Asha", "STU-001", "pass@123", "https://erp.example/login");
    assert_eq!(
        m,
        "Dear Asha, Welcome to Pratibha Inst of Nursing! ID: STU-001, Pass: pass@123. Portal: https://erp.example/login"
    );
}

#[test]
fn student_welcome_sms_default_portal() {
    let m = build_student_welcome_sms("Asha", "STU-001", "pw", "   ");
    assert_eq!(
        m,
        format!("Dear Asha, Welcome to Pratibha Inst of Nursing! ID: STU-001, Pass: pw. Portal: {}", PORTAL)
    );
}

#[test]
fn staff_welcome_sms_text() {
    let m = build_staff_welcome_sms("Ravi", "Librarian", "ravi@x.in", "secret", "");
    assert_eq!(
        m,
        format!(
            "Hello Ravi, Your Librarian account at Pratibha ERP is active! User: ravi@x.in, Pass: secret. Portal: {}",
            PORTAL
        )
    );
}

#[test]
fn student_welcome_whatsapp_text() {
    let m = build_student_welcome_whatsapp("Asha", "STU-001", "pw", "https://p.example");
    assert_eq!(
        m,
        "🎓 *Welcome to Pratibha Institute of Nursing*\n\nDear *Asha*,\n\nYour student portal account has been created!\n\n• *Student ID:* STU-001\n• *Default Password:* pw\n• *Portal Link:* https://p.example\n\nPlease log in and update your password immediately."
    );
}

#[test]
fn staff_welcome_whatsapp_text() {
    let m = build_staff_welcome_whatsapp("Ravi", "Accountant", "r@x.in", "pw", " ");
    assert_eq!(
        m,
        format!(
            "🏥 *Welcome to Pratibha ERP Portal*\n\nHello *Ravi*,\n\nYour *Accountant* account is now active.\n\n• *Login Email:* r@x.in\n• *Password:* pw\n• *Portal Link:* {}\n\nThank you for joining our team!",
            PORTAL
        )
    );
}

#[test]
fn portal_default_only_when_blank() {
    assert_eq!(portal_url_or_default(""), PORTAL);
    assert_eq!(portal_url_or_default(" \t"), PORTAL);
    assert_eq!(portal_url_or_default(" x "), " x ");
}

#[test]
fn fee_titles_by_kind() {
    assert_eq!(fee_title("HOSTEL"), "Hostel");
    assert_eq!(fee_title("transport"), "Transport");
    assert_eq!(fee_title("Library"), "Library");
    assert_eq!(fee_title("tuition"), "Tuition");
    assert_eq!(fee_title("exam"), "Tuition");
}

#[test]
fn target_phone_prefers_student() {
    assert_eq!(
        select_target_phone(Some("98".to_string()), Some("77".to_string())),
        Some("98".to_string())
    );
    assert_eq!(select_target_phone(None, Some("77".to_string())), Some("77".to_string()));
    assert_eq!(select_target_phone(Some("  ".to_string()), Some("77".to_string())), None);
    assert_eq!(select_target_phone(None, None), None);
}

#[test]
fn sms_number_keeps_last_ten_digits() {
    assert_eq!(sms_phone_number("+91 98765-43210"), Some("9876543210".to_string()));
    assert_eq!(sms_phone_number("9876543210"), Some("9876543210".to_string()));
    assert_eq!(sms_phone_number("12345"), None);
    assert_eq!(sms_phone_number(""), None);
}

#[test]
fn sms_number_is_idempotent_on_example() {
    let once = sms_phone_number("0091-98765 43210").unwrap();
    assert_eq!(sms_phone_number(&once), Some(once.clone()));
}

#[test]
fn whatsapp_number_adds_country_code_to_ten_digits() {
    assert_eq!(whatsapp_phone_number("98765 43210"), Some("919876543210".to_string()));
    assert_eq!(whatsapp_phone_number("+91 98765 43210"), Some("919876543210".to_string()));
    assert_eq!(whatsapp_phone_number("12345"), Some("12345".to_string()));
    assert_eq!(whatsapp_phone_number("n/a"), None);
}

#[test]
fn whatsapp_number_is_idempotent_on_example() {
    let once = whatsapp_phone_number("98765 43210").unwrap();
    assert_eq!(whatsapp_phone_number(&once), Some(once.clone()));
}

#[test]
fn sms_plan_checks_in_order() {
    assert!(matches!(plan_sms(false, "9876543210", "k", "fast2sms"), SmsPlan::Disabled));
    assert!(matches!(plan_sms(true, "123", "k", "fast2sms"), SmsPlan::InvalidNumber));
    assert!(matches!(plan_sms(true, "9876543210", "  ", "fast2sms"), SmsPlan::MissingApiKey));
    assert!(matches!(plan_sms(true, "9876543210", "k", "textlocal"), SmsPlan::UnsupportedProvider));
    match plan_sms(true, "09876543210", " sid:tok ", "Twilio") {
        SmsPlan::Twilio { phone, api_key } => {
            assert_eq!(phone, "9876543210");
            assert_eq!(api_key, "sid:tok");
        },
        _ => panic!("expected a Twilio send"),
    }
    match plan_sms(true, "98765-43210", "auth", "MSG91") {
        SmsPlan::Msg91 { phone, api_key } => {
            assert_eq!(phone, "9876543210");
            assert_eq!(api_key, "auth");
        },
        _ => panic!("expected an MSG91 send"),
    }
    match plan_sms(true, "+91 9876543210", " key ", "Fast2SMS") {
        SmsPlan::Fast2Sms { phone, api_key } => {
            assert_eq!(phone, "9876543210");
            assert_eq!(api_key, "key");
        },
        _ => panic!("expected a Fast2SMS send"),
    }
}

#[test]
fn whatsapp_plan_providers() {
    assert!(matches!(
        plan_whatsapp(false, "9876543210", "k", "production", "meta", "id"),
        WhatsAppPlan::Disabled
    ));
    assert!(matches!(
        plan_whatsapp(true, "none", "k", "production", "meta", "id"),
        WhatsAppPlan::EmptyNumber
    ));
    assert!(matches!(
        plan_whatsapp(true, "9876543210", " ", "production", "meta", "id"),
        WhatsAppPlan::MissingApiKey
    ));
    match plan_whatsapp(true, "9876543210", " tok ", "production", "Facebook", "12345") {
        WhatsAppPlan::Send { provider, url, phone, api_key } => {
            assert!(matches!(provider, WhatsAppProvider::Meta));
            assert_eq!(url, "https://graph.facebook.com/v18.0/12345/messages");
            assert_eq!(phone, "919876543210");
            assert_eq!(api_key, "tok");
        },
        _ => panic!("expected a Meta send"),
    }
    match plan_whatsapp(true, "9876543210", "tok", "development", "ultramsg", " inst1 ") {
        WhatsAppPlan::Send { provider, url, .. } => {
            assert!(matches!(provider, WhatsAppProvider::UltraMsg));
            assert_eq!(url, "https://api.ultramsg.com/inst1/messages/chat");
        },
        _ => panic!("expected an UltraMsg send"),
    }
}

#[test]
fn whatsapp_plan_without_key_outside_production_sends() {
    match plan_whatsapp(true, "9876543210", "", "development", "other", "") {
        WhatsAppPlan::Send { provider, .. } => assert!(matches!(provider, WhatsAppProvider::LogOnly)),
        _ => panic!("expected a logged send"),
    }
}

#[test]
fn expiry_units() {
    assert_eq!(parse_expiry(""), 900);
    assert_eq!(parse_expiry("   "), 900);
    assert_eq!(parse_expiry("45s"), 45);
    assert_eq!(parse_expiry("15m"), 900);
    assert_eq!(parse_expiry("2h"), 7200);
    assert_eq!(parse_expiry("7d"), 604800);
    assert_eq!(parse_expiry(" 1h "), 3600);
}

#[test]
fn expiry_unknown_unit_or_number() {
    assert_eq!(parse_expiry("abc"), 0);
    assert_eq!(parse_expiry("30x"), 30);
    assert_eq!(parse_expiry("m"), 0);
    assert_eq!(parse_expiry("-5m"), -300);
}

#[test]
fn expiry_units_scale_law_on_example() {
    assert_eq!(parse_expiry("3h"), parse_expiry("180m"));
    assert_eq!(parse_expiry("180m"), parse_expiry("10800s"));
    assert_eq!(parse_expiry("1d"), parse_expiry("24h"));
}

#[test]
fn expiry_overflow_is_refused() {
    assert_eq!(parse_expiry_checked("99999999999999999d"), None);
    assert_eq!(parse_expiry_checked("2h"), Some(7200));
}

#[test]
fn parse_i64_like_std() {
    assert_eq!(parse_i64("42"), Some(42));
    assert_eq!(parse_i64("+7"), Some(7));
    assert_eq!(parse_i64("-9223372036854775808"), Some(i64::MIN));
    assert_eq!(parse_i64("9223372036854775808"), None);
    assert_eq!(parse_i64(""), None);
    assert_eq!(parse_i64("1 2"), None);
    assert_eq!(parse_i64("-"), None);
}
