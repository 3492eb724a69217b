//! Swedish labels for the values of the status, severity, channel and
//! action-type columns.

use vstd::prelude::*;

use crate::text::same_text;

verus! {

/// The label of a report's or a case's status.
pub open spec fn status_label(status: Seq<char>) -> Seq<char> {
    if status == "intake"@ {
        "Mottagen"@
    } else if status == "triage"@ {
        "Under granskning"@
    } else if status == "investigating"@ {
        "Under utredning"@
    } else if status == "resolved"@ {
        "Avslutad"@
    } else if status == "archived"@ {
        "Arkiverad"@
    } else {
        "Okänd"@
    }
}

/// The label of a severity.
pub open spec fn severity_label(severity: Seq<char>) -> Seq<char> {
    if severity == "low"@ {
        "Låg"@
    } else if severity == "medium"@ {
        "Medel"@
    } else if severity == "high"@ {
        "Hög"@
    } else if severity == "critical"@ {
        "Kritisk"@
    } else {
        "Okänd"@
    }
}

/// The label of the channel a report came in through.
pub open spec fn channel_label(channel: Seq<char>) -> Seq<char> {
    if channel == "web"@ {
        "Webb"@
    } else if channel == "phone"@ {
        "Telefon"@
    } else if channel == "in_person"@ {
        "Personlig"@
    } else if channel == "email"@ {
        "E-post"@
    } else {
        "Okänd"@
    }
}

/// The label of an entry in a case's history.
pub open spec fn action_type_label(action_type: Seq<char>) -> Seq<char> {
    if action_type == "case_opened"@ {
        "Ärende öppnat"@
    } else if action_type == "assigned"@ {
        "Tilldelad"@
    } else if action_type == "reassigned"@ {
        "Omtilldelad"@
    } else if action_type == "status_changed"@ {
        "Status ändrad"@
    } else if action_type == "note_added"@ {
        "Anteckning tillagd"@
    } else if action_type == "document_uploaded"@ {
        "Dokument uppladdat"@
    } else if action_type == "document_downloaded"@ {
        "Dokument nedladdat"@
    } else if action_type == "disclosure_requested"@ {
        "Identitetsupplysning begärd"@
    } else if action_type == "disclosure_consumed"@ {
        "Identitet avslöjad"@
    } else {
        "Okänd händelse"@
    }
}

/// The label of a status, `Okänd` for one that is not known.
pub fn status_label_sv(status: &str) -> (r: &'static str)
    ensures
        r@ == status_label(status@),
{
    if same_text(status, "intake") {
        "Mottagen"
    } else if same_text(status, "triage") {
        "Under granskning"
    } else if same_text(status, "investigating") {
        "Under utredning"
    } else if same_text(status, "resolved") {
        "Avslutad"
    } else if same_text(status, "archived") {
        "Arkiverad"
    } else {
        "Okänd"
    }
}

/// The label of a severity, `Okänd` for one that is not known.
pub fn severity_label_sv(severity: &str) -> (r: &'static str)
    ensures
        r@ == severity_label(severity@),
{
    if same_text(severity, "low") {
        "Låg"
    } else if same_text(severity, "medium") {
        "Medel"
    } else if same_text(severity, "high") {
        "Hög"
    } else if same_text(severity, "critical") {
        "Kritisk"
    } else {
        "Okänd"
    }
}

/// The label of a channel, `Okänd` for one that is not known.
pub fn channel_label_sv(channel: &str) -> (r: &'static str)
    ensures
        r@ == channel_label(channel@),
{
    if same_text(channel, "web") {
        "Webb"
    } else if same_text(channel, "phone") {
        "Telefon"
    } else if same_text(channel, "in_person") {
        "Personlig"
    } else if same_text(channel, "email") {
        "E-post"
    } else {
        "Okänd"
    }
}

/// The label of an action type, `Okänd händelse` for one that is not known.
pub fn action_type_label_sv(action_type: &str) -> (r: &'static str)
    ensures
        r@ == action_type_label(action_type@),
{
    if same_text(action_type, "case_opened") {
        "Ärende öppnat"
    } else if same_text(action_type, "assigned") {
        "Tilldelad"
    } else if same_text(action_type, "reassigned") {
        "Omtilldelad"
    } else if same_text(action_type, "status_changed") {
        "Status ändrad"
    } else if same_text(action_type, "note_added") {
        "Anteckning tillagd"
    } else if same_text(action_type, "document_uploaded") {
        "Dokument uppladdat"
    } else if same_text(action_type, "document_downloaded") {
        "Dokument nedladdat"
    } else if same_text(action_type, "disclosure_requested") {
        "Identitetsupplysning begärd"
    } else if same_text(action_type, "disclosure_consumed") {
        "Identitet avslöjad"
    } else {
        "Okänd händelse"
    }
}

/// A status that is known has a label of its own, and any other is called unknown:
/// labels are equal only where the values are, or where both are not known.
pub proof fn law_status_labels(a: Seq<char>, b: Seq<char>)
    ensures
        status_label("intake"@) == "Mottagen"@,
        status_label("triage"@) == "Under granskning"@,
        status_label("investigating"@) == "Under utredning"@,
        status_label("resolved"@) == "Avslutad"@,
        status_label("archived"@) == "Arkiverad"@,
        status_label(a) == "Okänd"@ <==> !(a == "intake"@ || a == "triage"@ || a == "investigating"@ || a == "resolved"@ || a == "archived"@),
        status_label(a) == status_label(b) && status_label(a) != "Okänd"@ ==> a == b,
{
    reveal_strlit("intake");
    reveal_strlit("triage");
    reveal_strlit("investigating");
    reveal_strlit("resolved");
    reveal_strlit("archived");
    reveal_strlit("Mottagen");
    reveal_strlit("Under granskning");
    reveal_strlit("Under utredning");
    reveal_strlit("Avslutad");
    reveal_strlit("Arkiverad");
    reveal_strlit("Okänd");
    assert("Mottagen"@.len() == 8 && "Under granskning"@.len() == 16 && "Under utredning"@.len() == 15 && "Avslutad"@.len() == 8 && "Arkiverad"@.len() == 9 && "Okänd"@.len() == 5);
    assert("Avslutad"@[0] == 'A' && "Mottagen"@[0] == 'M');
    assert("intake"@.len() == 6 && "triage"@.len() == 6 && "investigating"@.len() == 13 && "resolved"@.len() == 8 && "archived"@.len() == 8);
    assert("triage"@[0] == 't' && "intake"@[0] == 'i' && "archived"@[0] == 'a' && "resolved"@[0] == 'r');
}

/// A severity that is known has a label of its own, and any other is called unknown:
/// labels are equal only where the values are, or where both are not known.
pub proof fn law_severity_labels(a: Seq<char>, b: Seq<char>)
    ensures
        severity_label("low"@) == "Låg"@,
        severity_label("medium"@) == "Medel"@,
        severity_label("high"@) == "Hög"@,
        severity_label("critical"@) == "Kritisk"@,
        severity_label(a) == "Okänd"@ <==> !(a == "low"@ || a == "medium"@ || a == "high"@ || a == "critical"@),
        severity_label(a) == severity_label(b) && severity_label(a) != "Okänd"@ ==> a == b,
{
    reveal_strlit("low");
    reveal_strlit("medium");
    reveal_strlit("high");
    reveal_strlit("critical");
    reveal_strlit("Låg");
    reveal_strlit("Medel");
    reveal_strlit("Hög");
    reveal_strlit("Kritisk");
    reveal_strlit("Okänd");
    assert("Låg"@.len() == 3 && "Medel"@.len() == 5 && "Hög"@.len() == 3 && "Kritisk"@.len() == 7 && "Okänd"@.len() == 5);
    assert("Hög"@[0] == 'H' && "Låg"@[0] == 'L' && "Okänd"@[0] == 'O' && "Medel"@[0] == 'M');
    assert("low"@.len() == 3 && "medium"@.len() == 6 && "high"@.len() == 4 && "critical"@.len() == 8);
}

/// A channel that is known has a label of its own, and any other is called unknown:
/// labels are equal only where the values are, or where both are not known.
pub proof fn law_channel_labels(a: Seq<char>, b: Seq<char>)
    ensures
        channel_label("web"@) == "Webb"@,
        channel_label("phone"@) == "Telefon"@,
        channel_label("in_person"@) == "Personlig"@,
        channel_label("email"@) == "E-post"@,
        channel_label(a) == "Okänd"@ <==> !(a == "web"@ || a == "phone"@ || a == "in_person"@ || a == "email"@),
        channel_label(a) == channel_label(b) && channel_label(a) != "Okänd"@ ==> a == b,
{
    reveal_strlit("web");
    reveal_strlit("phone");
    reveal_strlit("in_person");
    reveal_strlit("email");
    reveal_strlit("Webb");
    reveal_strlit("Telefon");
    reveal_strlit("Personlig");
    reveal_strlit("E-post");
    reveal_strlit("Okänd");
    assert("Webb"@.len() == 4 && "Telefon"@.len() == 7 && "Personlig"@.len() == 9 && "E-post"@.len() == 6 && "Okänd"@.len() == 5);
    assert("web"@.len() == 3 && "phone"@.len() == 5 && "in_person"@.len() == 9 && "email"@.len() == 5);
    assert("email"@[0] == 'e' && "phone"@[0] == 'p');
}

/// A type of action that is known has a label of its own, and any other is called unknown:
/// labels are equal only where the values are, or where both are not known.
pub proof fn law_action_type_labels(a: Seq<char>, b: Seq<char>)
    ensures
        action_type_label("case_opened"@) == "Ärende öppnat"@,
        action_type_label("assigned"@) == "Tilldelad"@,
        action_type_label("reassigned"@) == "Omtilldelad"@,
        action_type_label("status_changed"@) == "Status ändrad"@,
        action_type_label("note_added"@) == "Anteckning tillagd"@,
        action_type_label("document_uploaded"@) == "Dokument uppladdat"@,
        action_type_label("document_downloaded"@) == "Dokument nedladdat"@,
        action_type_label("disclosure_requested"@) == "Identitetsupplysning begärd"@,
        action_type_label("disclosure_consumed"@) == "Identitet avslöjad"@,
        action_type_label(a) == "Okänd händelse"@ <==> !(a == "case_opened"@ || a == "assigned"@ || a == "reassigned"@ || a == "status_changed"@ || a == "note_added"@ || a == "document_uploaded"@ || a == "document_downloaded"@ || a == "disclosure_requested"@ || a == "disclosure_consumed"@),
        action_type_label(a) == action_type_label(b) && action_type_label(a) != "Okänd händelse"@ ==> a == b,
{
    reveal_strlit("case_opened");
    reveal_strlit("assigned");
    reveal_strlit("reassigned");
    reveal_strlit("status_changed");
    reveal_strlit("note_added");
    reveal_strlit("document_uploaded");
    reveal_strlit("document_downloaded");
    reveal_strlit("disclosure_requested");
    reveal_strlit("disclosure_consumed");
    reveal_strlit("Ärende öppnat");
    reveal_strlit("Tilldelad");
    reveal_strlit("Omtilldelad");
    reveal_strlit("Status ändrad");
    reveal_strlit("Anteckning tillagd");
    reveal_strlit("Dokument uppladdat");
    reveal_strlit("Dokument nedladdat");
    reveal_strlit("Identitetsupplysning begärd");
    reveal_strlit("Identitet avslöjad");
    reveal_strlit("Okänd händelse");
    assert("Ärende öppnat"@.len() == 13 && "Tilldelad"@.len() == 9 && "Omtilldelad"@.len() == 11 && "Status ändrad"@.len() == 13 && "Anteckning tillagd"@.len() == 18 && "Dokument uppladdat"@.len() == 18 && "Dokument nedladdat"@.len() == 18 && "Identitetsupplysning begärd"@.len() == 27 && "Identitet avslöjad"@.len() == 18 && "Okänd händelse"@.len() == 14);
    assert("Status ändrad"@[0] == 'S' && "Ärende öppnat"@[0] == 'Ä' && "Dokument uppladdat"@[0] == 'D' && "Anteckning tillagd"@[0] == 'A' && "Dokument nedladdat"@[0] == 'D' && "Anteckning tillagd"@[0] == 'A' && "Dokument nedladdat"@[9] == 'n' && "Dokument uppladdat"@[9] == 'u' && "Identitet avslöjad"@[0] == 'I' && "Anteckning tillagd"@[0] == 'A' && "Identitet avslöjad"@[0] == 'I' && "Dokument uppladdat"@[0] == 'D' && "Identitet avslöjad"@[0] == 'I' && "Dokument nedladdat"@[0] == 'D');
    assert("case_opened"@.len() == 11 && "assigned"@.len() == 8 && "reassigned"@.len() == 10 && "status_changed"@.len() == 14 && "note_added"@.len() == 10 && "document_uploaded"@.len() == 17 && "document_downloaded"@.len() == 19 && "disclosure_requested"@.len() == 20 && "disclosure_consumed"@.len() == 19);
    assert("note_added"@[0] == 'n' && "reassigned"@[0] == 'r' && "disclosure_consumed"@[1] == 'i' && "document_downloaded"@[1] == 'o');
}

}
