use vstd::prelude::*;

use crate::option::{option_key, option_of, OptionModel, PinentryOption};
use crate::text::{i32_text, is_ws, join_from, lemma_tokens_wider_gap, join_words, parse_i32, same_text, split_words, tokens, views};

verus! {

/// One parsed client command.
#[derive(Debug, PartialEq)]
pub enum ClientRequest {
    Bye,
    Reset,
    End,
    Help,
    Quit,
    Option(PinentryOption),
    Cancel,
    Auth,
    Nop,
    GetPin,
    Confirm,
    Message,
    SetTimeout(i32),
    SetDescription(String),
    SetPrompt(String),
    SetTitle(String),
    SetOk(String),
    SetCancel(String),
    SetNotOk(String),
    SetError(String),
    SetRepeat,
    SetQualityBar,
    SetQualityBarTooltip(String),
    SetGenPin,
    SetGenPinTooltip(String),
    SetKeyInfo(String),
}

/// Mathematical model of a `ClientRequest`: its texts as character sequences.
pub enum RequestModel {
    Bye,
    Reset,
    End,
    Help,
    Quit,
    Option(OptionModel),
    Cancel,
    Auth,
    Nop,
    GetPin,
    Confirm,
    Message,
    SetTimeout(i32),
    SetDescription(Seq<char>),
    SetPrompt(Seq<char>),
    SetTitle(Seq<char>),
    SetOk(Seq<char>),
    SetCancel(Seq<char>),
    SetNotOk(Seq<char>),
    SetError(Seq<char>),
    SetRepeat,
    SetQualityBar,
    SetQualityBarTooltip(Seq<char>),
    SetGenPin,
    SetGenPinTooltip(Seq<char>),
    SetKeyInfo(Seq<char>),
}

impl View for ClientRequest {
    type V = RequestModel;

    open spec fn view(&self) -> RequestModel {
        match self {
            ClientRequest::Bye => RequestModel::Bye,
            ClientRequest::Reset => RequestModel::Reset,
            ClientRequest::End => RequestModel::End,
            ClientRequest::Help => RequestModel::Help,
            ClientRequest::Quit => RequestModel::Quit,
            ClientRequest::Option(o) => RequestModel::Option(o@),
            ClientRequest::Cancel => RequestModel::Cancel,
            ClientRequest::Auth => RequestModel::Auth,
            ClientRequest::Nop => RequestModel::Nop,
            ClientRequest::GetPin => RequestModel::GetPin,
            ClientRequest::Confirm => RequestModel::Confirm,
            ClientRequest::Message => RequestModel::Message,
            ClientRequest::SetTimeout(t) => RequestModel::SetTimeout(*t),
            ClientRequest::SetDescription(t) => RequestModel::SetDescription(t@),
            ClientRequest::SetPrompt(t) => RequestModel::SetPrompt(t@),
            ClientRequest::SetTitle(t) => RequestModel::SetTitle(t@),
            ClientRequest::SetOk(t) => RequestModel::SetOk(t@),
            ClientRequest::SetCancel(t) => RequestModel::SetCancel(t@),
            ClientRequest::SetNotOk(t) => RequestModel::SetNotOk(t@),
            ClientRequest::SetError(t) => RequestModel::SetError(t@),
            ClientRequest::SetRepeat => RequestModel::SetRepeat,
            ClientRequest::SetQualityBar => RequestModel::SetQualityBar,
            ClientRequest::SetQualityBarTooltip(t) => RequestModel::SetQualityBarTooltip(t@),
            ClientRequest::SetGenPin => RequestModel::SetGenPin,
            ClientRequest::SetGenPinTooltip(t) => RequestModel::SetGenPinTooltip(t@),
            ClientRequest::SetKeyInfo(t) => RequestModel::SetKeyInfo(t@),
        }
    }
}

/// The model of an optional request.
pub open spec fn request_view(r: Option<ClientRequest>) -> Option<RequestModel> {
    match r {
        Some(q) => Some(q@),
        None => None,
    }
}

/// The request that a keyword without payload denotes, if it is one.
pub open spec fn unit_request(k: Seq<char>) -> Option<RequestModel> {
    if k == "BYE"@ {
        Some(RequestModel::Bye)
    } else if k == "RESET"@ {
        Some(RequestModel::Reset)
    } else if k == "END"@ {
        Some(RequestModel::End)
    } else if k == "HELP"@ {
        Some(RequestModel::Help)
    } else if k == "QUIT"@ {
        Some(RequestModel::Quit)
    } else if k == "CANCEL"@ {
        Some(RequestModel::Cancel)
    } else if k == "AUTH"@ {
        Some(RequestModel::Auth)
    } else if k == "NOP"@ {
        Some(RequestModel::Nop)
    } else if k == "GETPIN"@ {
        Some(RequestModel::GetPin)
    } else if k == "CONFIRM"@ {
        Some(RequestModel::Confirm)
    } else if k == "MESSAGE"@ {
        Some(RequestModel::Message)
    } else if k == "SETREPEAT"@ {
        Some(RequestModel::SetRepeat)
    } else if k == "SETQUALITYBAR"@ {
        Some(RequestModel::SetQualityBar)
    } else if k == "SETGENPIN"@ {
        Some(RequestModel::SetGenPin)
    } else {
        None
    }
}

/// The request that a keyword taking free text denotes, given that text.
pub open spec fn text_request(k: Seq<char>, text: Seq<char>) -> Option<RequestModel> {
    if k == "SETDESC"@ {
        Some(RequestModel::SetDescription(text))
    } else if k == "SETPROMPT"@ {
        Some(RequestModel::SetPrompt(text))
    } else if k == "SETTITLE"@ {
        Some(RequestModel::SetTitle(text))
    } else if k == "SETOK"@ {
        Some(RequestModel::SetOk(text))
    } else if k == "SETCANCEL"@ {
        Some(RequestModel::SetCancel(text))
    } else if k == "SETNOTOK"@ {
        Some(RequestModel::SetNotOk(text))
    } else if k == "SETERROR"@ {
        Some(RequestModel::SetError(text))
    } else if k == "SETQUALITYBARTOOLTIP"@ {
        Some(RequestModel::SetQualityBarTooltip(text))
    } else if k == "SETGENPINTOOLTIP"@ {
        Some(RequestModel::SetGenPinTooltip(text))
    } else if k == "SETKEYINFO"@ {
        Some(RequestModel::SetKeyInfo(text))
    } else {
        None
    }
}

/// The timeout that a `SETTIMEOUT` argument denotes: `0` where it is no `i32`.
pub open spec fn timeout_of(arg: Seq<char>) -> i32 {
    match i32_text(arg) {
        Some(v) => v,
        None => 0,
    }
}

/// The keywords of the protocol.
pub open spec fn is_keyword(k: Seq<char>) -> bool {
    unit_request(k) is Some || text_request(k, seq![]) is Some || k == "OPTION"@ || k
        == "SETTIMEOUT"@
}

/// The request that a command line denotes; `None` where its first word is no keyword.
pub open spec fn request_of(line: Seq<char>) -> Option<RequestModel> {
    let ts = tokens(line);
    if ts.len() == 0 {
        None
    } else {
        let k = ts[0];
        let arg = if ts.len() > 1 {
            ts[1]
        } else {
            seq![]
        };
        if unit_request(k) is Some {
            unit_request(k)
        } else if text_request(k, seq![]) is Some {
            text_request(k, join_words(ts.skip(1)))
        } else if k == "OPTION"@ {
            Some(RequestModel::Option(option_of(arg)))
        } else if k == "SETTIMEOUT"@ {
            Some(RequestModel::SetTimeout(timeout_of(arg)))
        } else {
            None
        }
    }
}

impl ClientRequest {
    /// Parses one command line.
    pub fn parse(input: &str) -> (r: Option<ClientRequest>)
        ensures
            request_view(r) == request_of(input@),
    {
        let parts = split_words(input);
        let ghost ts = tokens(input@);
        if parts.len() == 0 {
            return None;
        }
        assert(views(parts@)[0] == parts@[0]@);
        let k = parts[0].as_str();
        if same_text(k, "BYE") {
            Some(ClientRequest::Bye)
        } else if same_text(k, "RESET") {
            Some(ClientRequest::Reset)
        } else if same_text(k, "END") {
            Some(ClientRequest::End)
        } else if same_text(k, "HELP") {
            Some(ClientRequest::Help)
        } else if same_text(k, "QUIT") {
            Some(ClientRequest::Quit)
        } else if same_text(k, "CANCEL") {
            Some(ClientRequest::Cancel)
        } else if same_text(k, "AUTH") {
            Some(ClientRequest::Auth)
        } else if same_text(k, "NOP") {
            Some(ClientRequest::Nop)
        } else if same_text(k, "GETPIN") {
            Some(ClientRequest::GetPin)
        } else if same_text(k, "CONFIRM") {
            Some(ClientRequest::Confirm)
        } else if same_text(k, "MESSAGE") {
            Some(ClientRequest::Message)
        } else if same_text(k, "SETREPEAT") {
            Some(ClientRequest::SetRepeat)
        } else if same_text(k, "SETQUALITYBAR") {
            Some(ClientRequest::SetQualityBar)
        } else if same_text(k, "SETGENPIN") {
            Some(ClientRequest::SetGenPin)
        } else if same_text(k, "SETDESC") {
            Some(ClientRequest::SetDescription(join_from(&parts, 1)))
        } else if same_text(k, "SETPROMPT") {
            Some(ClientRequest::SetPrompt(join_from(&parts, 1)))
        } else if same_text(k, "SETTITLE") {
            Some(ClientRequest::SetTitle(join_from(&parts, 1)))
        } else if same_text(k, "SETOK") {
            Some(ClientRequest::SetOk(join_from(&parts, 1)))
        } else if same_text(k, "SETCANCEL") {
            Some(ClientRequest::SetCancel(join_from(&parts, 1)))
        } else if same_text(k, "SETNOTOK") {
            Some(ClientRequest::SetNotOk(join_from(&parts, 1)))
        } else if same_text(k, "SETERROR") {
            Some(ClientRequest::SetError(join_from(&parts, 1)))
        } else if same_text(k, "SETQUALITYBARTOOLTIP") {
            Some(ClientRequest::SetQualityBarTooltip(join_from(&parts, 1)))
        } else if same_text(k, "SETGENPINTOOLTIP") {
            Some(ClientRequest::SetGenPinTooltip(join_from(&parts, 1)))
        } else if same_text(k, "SETKEYINFO") {
            Some(ClientRequest::SetKeyInfo(join_from(&parts, 1)))
        } else if same_text(k, "OPTION") {
            let o = if parts.len() > 1 {
                assert(views(parts@)[1] == parts@[1]@);
                PinentryOption::parse(parts[1].as_str())
            } else {
                proof {
                    reveal_strlit("");
                    assert(""@ =~= Seq::<char>::empty());
                }
                PinentryOption::parse("")
            };
            Some(ClientRequest::Option(o))
        } else if same_text(k, "SETTIMEOUT") {
            let t = if parts.len() > 1 {
                assert(views(parts@)[1] == parts@[1]@);
                match parse_i32(parts[1].as_str()) {
                    Some(v) => v,
                    None => 0,
                }
            } else {
                0
            };
            Some(ClientRequest::SetTimeout(t))
        } else {
            None
        }
    }
}

/// The keys of the known-option table.
pub open spec fn is_option_key(k: Seq<char>) -> bool {
    k == "formatted-passphrase"@ || k == "formatted-passphrase-hint"@ || k == "ttytype"@ || k
        == "ttyname"@ || k == "lc-ctype"@ || k == "default-ok"@ || k == "default-cancel"@ || k
        == "default-prompt"@ || k == "allow-external-password-cache"@
}

proof fn lemma_payload_keywords_distinct()
    ensures
        unit_request("SETTIMEOUT"@) is None,
        text_request("SETTIMEOUT"@, seq![]) is None,
        unit_request("OPTION"@) is None,
        text_request("OPTION"@, seq![]) is None,
        "SETTIMEOUT"@ != "OPTION"@,
{
    reveal_strlit("BYE");
    reveal_strlit("RESET");
    reveal_strlit("END");
    reveal_strlit("HELP");
    reveal_strlit("QUIT");
    reveal_strlit("CANCEL");
    reveal_strlit("AUTH");
    reveal_strlit("NOP");
    reveal_strlit("GETPIN");
    reveal_strlit("CONFIRM");
    reveal_strlit("MESSAGE");
    reveal_strlit("SETREPEAT");
    reveal_strlit("SETQUALITYBAR");
    reveal_strlit("SETGENPIN");
    reveal_strlit("SETDESC");
    reveal_strlit("SETPROMPT");
    reveal_strlit("SETTITLE");
    reveal_strlit("SETOK");
    reveal_strlit("SETCANCEL");
    reveal_strlit("SETNOTOK");
    reveal_strlit("SETERROR");
    reveal_strlit("SETQUALITYBARTOOLTIP");
    reveal_strlit("SETGENPINTOOLTIP");
    reveal_strlit("SETKEYINFO");
    reveal_strlit("OPTION");
    reveal_strlit("SETTIMEOUT");
    assert("SETTIMEOUT"@.len() != "BYE"@.len());
    assert("SETTIMEOUT"@.len() != "RESET"@.len());
    assert("SETTIMEOUT"@.len() != "END"@.len());
    assert("SETTIMEOUT"@.len() != "HELP"@.len());
    assert("SETTIMEOUT"@.len() != "QUIT"@.len());
    assert("SETTIMEOUT"@.len() != "CANCEL"@.len());
    assert("SETTIMEOUT"@.len() != "AUTH"@.len());
    assert("SETTIMEOUT"@.len() != "NOP"@.len());
    assert("SETTIMEOUT"@.len() != "GETPIN"@.len());
    assert("SETTIMEOUT"@.len() != "CONFIRM"@.len());
    assert("SETTIMEOUT"@.len() != "MESSAGE"@.len());
    assert("SETTIMEOUT"@.len() != "SETREPEAT"@.len());
    assert("SETTIMEOUT"@.len() != "SETQUALITYBAR"@.len());
    assert("SETTIMEOUT"@.len() != "SETGENPIN"@.len());
    assert("SETTIMEOUT"@.len() != "SETDESC"@.len());
    assert("SETTIMEOUT"@.len() != "SETPROMPT"@.len());
    assert("SETTIMEOUT"@.len() != "SETTITLE"@.len());
    assert("SETTIMEOUT"@.len() != "SETOK"@.len());
    assert("SETTIMEOUT"@.len() != "SETCANCEL"@.len());
    assert("SETTIMEOUT"@.len() != "SETNOTOK"@.len());
    assert("SETTIMEOUT"@.len() != "SETERROR"@.len());
    assert("SETTIMEOUT"@.len() != "SETQUALITYBARTOOLTIP"@.len());
    assert("SETTIMEOUT"@.len() != "SETGENPINTOOLTIP"@.len());
    assert("SETTIMEOUT"@[3] != "SETKEYINFO"@[3]);
    assert("SETTIMEOUT"@.len() != "OPTION"@.len());
    assert("OPTION"@.len() != "BYE"@.len());
    assert("OPTION"@.len() != "RESET"@.len());
    assert("OPTION"@.len() != "END"@.len());
    assert("OPTION"@.len() != "HELP"@.len());
    assert("OPTION"@.len() != "QUIT"@.len());
    assert("OPTION"@[0] != "CANCEL"@[0]);
    assert("OPTION"@.len() != "AUTH"@.len());
    assert("OPTION"@.len() != "NOP"@.len());
    assert("OPTION"@[0] != "GETPIN"@[0]);
    assert("OPTION"@.len() != "CONFIRM"@.len());
    assert("OPTION"@.len() != "MESSAGE"@.len());
    assert("OPTION"@.len() != "SETREPEAT"@.len());
    assert("OPTION"@.len() != "SETQUALITYBAR"@.len());
    assert("OPTION"@.len() != "SETGENPIN"@.len());
    assert("OPTION"@.len() != "SETDESC"@.len());
    assert("OPTION"@.len() != "SETPROMPT"@.len());
    assert("OPTION"@.len() != "SETTITLE"@.len());
    assert("OPTION"@.len() != "SETOK"@.len());
    assert("OPTION"@.len() != "SETCANCEL"@.len());
    assert("OPTION"@.len() != "SETNOTOK"@.len());
    assert("OPTION"@.len() != "SETERROR"@.len());
    assert("OPTION"@.len() != "SETQUALITYBARTOOLTIP"@.len());
    assert("OPTION"@.len() != "SETGENPINTOOLTIP"@.len());
    assert("OPTION"@.len() != "SETKEYINFO"@.len());
}

/// A line whose first word is a keyword without payload parses to that unit request,
/// whatever follows it.
pub proof fn lemma_unit_command(line: Seq<char>)
    requires
        tokens(line).len() > 0,
        unit_request(tokens(line)[0]) is Some,
    ensures
        request_of(line) == unit_request(tokens(line)[0]),
{
}

/// A line with no words, or whose first word is no keyword, does not parse.
pub proof fn lemma_unknown_command(line: Seq<char>)
    requires
        tokens(line).len() == 0 || !is_keyword(tokens(line)[0]),
    ensures
        request_of(line) is None,
{
}

/// `SETTIMEOUT` without an argument, or with one that is no `i32`, sets timeout `0`.
pub proof fn lemma_timeout_defaults_to_zero(line: Seq<char>)
    requires
        tokens(line).len() > 0,
        tokens(line)[0] == "SETTIMEOUT"@,
        tokens(line).len() == 1 || i32_text(tokens(line)[1]) is None,
    ensures
        request_of(line) == Some(RequestModel::SetTimeout(0)),
{
    lemma_payload_keywords_distinct();
}

/// `OPTION` without an argument, or with one whose key is not in the table, gives
/// the unknown option.
pub proof fn lemma_unknown_option(line: Seq<char>)
    requires
        tokens(line).len() > 0,
        tokens(line)[0] == "OPTION"@,
        tokens(line).len() == 1 || !is_option_key(option_key(tokens(line)[1])),
    ensures
        request_of(line) == Some(RequestModel::Option(OptionModel::UnknownOption)),
{
    lemma_payload_keywords_distinct();
    if tokens(line).len() == 1 {
        reveal_strlit("formatted-passphrase");
        reveal_strlit("formatted-passphrase-hint");
        reveal_strlit("ttytype");
        reveal_strlit("ttyname");
        reveal_strlit("lc-ctype");
        reveal_strlit("default-ok");
        reveal_strlit("default-cancel");
        reveal_strlit("default-prompt");
        reveal_strlit("allow-external-password-cache");
        assert(option_key(seq![]) =~= seq![]);
    }
}

/// The parse of a line does not depend on the length of its whitespace runs:
/// free text is rejoined with single spaces.
pub proof fn lemma_whitespace_runs_collapse(a: Seq<char>, w: char, w2: char, b: Seq<char>)
    requires
        is_ws(w),
        is_ws(w2),
    ensures
        request_of(a + seq![w, w2] + b) == request_of(a + seq![w] + b),
{
    lemma_tokens_wider_gap(a, w, w2, b);
}

} // verus!
