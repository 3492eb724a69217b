use lursystem::labels::{
    action_type_label_sv, channel_label_sv, severity_label_sv, status_label_sv,
};

#[test]
fn status_labels() {
    assert_eq!(status_label_sv("intake"), "Mottagen");
    assert_eq!(status_label_sv("triage"), "Under granskning");
    assert_eq!(status_label_sv("investigating"), "Under utredning");
    assert_eq!(status_label_sv("resolved"), "Avslutad");
    assert_eq!(status_label_sv("archived"), "Arkiverad");
    assert_eq!(status_label_sv("Intake"), "Okänd");
    assert_eq!(status_label_sv(""), "Okänd");
}

#[test]
fn severity_labels() {
    assert_eq!(severity_label_sv("low"), "Låg");
    assert_eq!(severity_label_sv("medium"), "Medel");
    assert_eq!(severity_label_sv("high"), "Hög");
    assert_eq!(severity_label_sv("critical"), "Kritisk");
    assert_eq!(severity_label_sv("urgent"), "Okänd");
}

#[test]
fn channel_labels() {
    assert_eq!(channel_label_sv("web"), "Webb");
    assert_eq!(channel_label_sv("phone"), "Telefon");
    assert_eq!(channel_label_sv("in_person"), "Personlig");
    assert_eq!(channel_label_sv("email"), "E-post");
    assert_eq!(channel_label_sv("fax"), "Okänd");
}

#[test]
fn action_type_labels() {
    assert_eq!(action_type_label_sv("case_opened"), "Ärende öppnat");
    assert_eq!(action_type_label_sv("assigned"), "Tilldelad");
    assert_eq!(action_type_label_sv("reassigned"), "Omtilldelad");
    assert_eq!(action_type_label_sv("status_changed"), "Status ändrad");
    assert_eq!(action_type_label_sv("note_added"), "Anteckning tillagd");
    assert_eq!(action_type_label_sv("document_uploaded"), "Dokument uppladdat");
    assert_eq!(action_type_label_sv("document_downloaded"), "Dokument nedladdat");
    assert_eq!(action_type_label_sv("disclosure_requested"), "Identitetsupplysning begärd");
    assert_eq!(action_type_label_sv("disclosure_consumed"), "Identitet avslöjad");
    assert_eq!(action_type_label_sv("deleted"), "Okänd händelse");
}
