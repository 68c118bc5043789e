//! Server side of the Assuan line protocol spoken by credential-entry helpers:
//! the command grammar, the status-line encoding, and the session state machine.
use vstd::prelude::*;

pub mod client_request;
pub mod error;
pub mod option;
pub mod response;
pub mod text;

use crate::client_request::{request_of, request_view, ClientRequest, RequestModel};
use crate::error::AssuanError;
use crate::response::{render, Response, ResponseModel};
use crate::text::views;

verus! {

/// The state of one client session.
pub struct Pinentry {
    pub timeout: Option<i32>,
    pub description: Option<String>,
    pub prompt: Option<String>,
    pub title: Option<String>,
    pub ok_button: Option<String>,
    pub cancel_button: Option<String>,
    pub not_ok_button: Option<String>,
    pub error: Option<String>,
    pub repeat: bool,
    pub quality_bar: bool,
    pub quality_bar_tooltip: Option<String>,
    pub generate_pin: bool,
    pub generate_pin_tooltip: Option<String>,
    pub key_info: Option<String>,
    pub should_quit: bool,
}

/// Mathematical model of a session: its texts as character sequences.
pub struct SessionModel {
    pub timeout: Option<i32>,
    pub description: Option<Seq<char>>,
    pub prompt: Option<Seq<char>>,
    pub title: Option<Seq<char>>,
    pub ok_button: Option<Seq<char>>,
    pub cancel_button: Option<Seq<char>>,
    pub not_ok_button: Option<Seq<char>>,
    pub error: Option<Seq<char>>,
    pub repeat: bool,
    pub quality_bar: bool,
    pub quality_bar_tooltip: Option<Seq<char>>,
    pub generate_pin: bool,
    pub generate_pin_tooltip: Option<Seq<char>>,
    pub key_info: Option<Seq<char>>,
    pub should_quit: bool,
}

/// The character view of an optional text.
pub open spec fn text_view(t: Option<String>) -> Option<Seq<char>> {
    match t {
        Some(s) => Some(s@),
        None => None,
    }
}

impl View for Pinentry {
    type V = SessionModel;

    open spec fn view(&self) -> SessionModel {
        SessionModel {
            timeout: self.timeout,
            description: text_view(self.description),
            prompt: text_view(self.prompt),
            title: text_view(self.title),
            ok_button: text_view(self.ok_button),
            cancel_button: text_view(self.cancel_button),
            not_ok_button: text_view(self.not_ok_button),
            error: text_view(self.error),
            repeat: self.repeat,
            quality_bar: self.quality_bar,
            quality_bar_tooltip: text_view(self.quality_bar_tooltip),
            generate_pin: self.generate_pin,
            generate_pin_tooltip: text_view(self.generate_pin_tooltip),
            key_info: text_view(self.key_info),
            should_quit: self.should_quit,
        }
    }
}

/// A session as created: every field unset, every flag false.
pub open spec fn initial_session() -> SessionModel {
    SessionModel {
        timeout: None,
        description: None,
        prompt: None,
        title: None,
        ok_button: None,
        cancel_button: None,
        not_ok_button: None,
        error: None,
        repeat: false,
        quality_bar: false,
        quality_bar_tooltip: None,
        generate_pin: false,
        generate_pin_tooltip: None,
        key_info: None,
        should_quit: false,
    }
}

/// The session after one request (`None`: a line that did not parse).
pub open spec fn next_state(s: SessionModel, r: Option<RequestModel>) -> SessionModel {
    match r {
        Some(RequestModel::Bye) => SessionModel { should_quit: true, ..s },
        Some(RequestModel::Reset) => SessionModel { should_quit: s.should_quit, ..initial_session() },
        Some(RequestModel::SetTimeout(t)) => SessionModel { timeout: Some(t), ..s },
        Some(RequestModel::SetDescription(t)) => SessionModel { description: Some(t), ..s },
        Some(RequestModel::SetPrompt(t)) => SessionModel { prompt: Some(t), ..s },
        Some(RequestModel::SetTitle(t)) => SessionModel { title: Some(t), ..s },
        Some(RequestModel::SetOk(t)) => SessionModel { ok_button: Some(t), ..s },
        Some(RequestModel::SetCancel(t)) => SessionModel { cancel_button: Some(t), ..s },
        Some(RequestModel::SetNotOk(t)) => SessionModel { not_ok_button: Some(t), ..s },
        Some(RequestModel::SetError(t)) => SessionModel { error: Some(t), ..s },
        Some(RequestModel::SetRepeat) => SessionModel { repeat: true, ..s },
        Some(RequestModel::SetQualityBar) => SessionModel { quality_bar: true, ..s },
        Some(RequestModel::SetQualityBarTooltip(t)) => SessionModel {
            quality_bar_tooltip: Some(t),
            ..s
        },
        Some(RequestModel::SetGenPin) => SessionModel { generate_pin: true, ..s },
        Some(RequestModel::SetGenPinTooltip(t)) => SessionModel {
            generate_pin_tooltip: Some(t),
            ..s
        },
        Some(RequestModel::SetKeyInfo(t)) => SessionModel { key_info: Some(t), ..s },
        _ => s,
    }
}

/// Whether the engine executes a recognized request (else it answers `NotImplemented`).
pub open spec fn is_handled(q: RequestModel) -> bool {
    match q {
        RequestModel::End | RequestModel::Help | RequestModel::Quit | RequestModel::Option(_)
        | RequestModel::Cancel | RequestModel::Auth | RequestModel::Nop | RequestModel::GetPin
        | RequestModel::Confirm | RequestModel::Message => false,
        _ => true,
    }
}

/// The single response to one request.
pub open spec fn reply(r: Option<RequestModel>) -> ResponseModel {
    match r {
        None => ResponseModel::Error(AssuanError::UnknownIPCCommand),
        Some(RequestModel::Bye) => ResponseModel::Success(Some("Closing connection"@)),
        Some(q) => if is_handled(q) {
            ResponseModel::Success(None)
        } else {
            ResponseModel::Error(AssuanError::NotImplemented)
        },
    }
}

/// The line sent when a session starts, before any input is read.
pub open spec fn greeting_line() -> Seq<char> {
    render(ResponseModel::Success(Some("Pleased to meet you"@)))
}

/// The final session and the lines written for the input `lines`: each line is
/// dispatched in turn, and none is read once a dispatch has set the termination flag.
pub open spec fn session_run(s: SessionModel, lines: Seq<Seq<char>>) -> (SessionModel, Seq<
    Seq<char>,
>)
    decreases lines.len(),
{
    if lines.len() == 0 {
        (s, seq![])
    } else {
        let r = request_of(lines[0]);
        let s1 = next_state(s, r);
        let line = render(reply(r));
        if s1.should_quit {
            (s1, seq![line])
        } else {
            let rest = session_run(s1, lines.drop_first());
            (rest.0, seq![line] + rest.1)
        }
    }
}

impl Pinentry {
    /// A fresh session.
    pub fn new() -> (r: Pinentry)
        ensures
            r@ == initial_session(),
    {
        Pinentry {
            timeout: None,
            description: None,
            prompt: None,
            title: None,
            ok_button: None,
            cancel_button: None,
            not_ok_button: None,
            error: None,
            repeat: false,
            quality_bar: false,
            quality_bar_tooltip: None,
            generate_pin: false,
            generate_pin_tooltip: None,
            key_info: None,
            should_quit: false,
        }
    }

    /// The greeting line sent at session start.
    pub fn greeting() -> (r: String)
        ensures
            r@ == greeting_line(),
    {
        Response::Success(Some(String::from_str("Pleased to meet you"))).to_string()
    }

    /// Applies one request to the session and returns its responses.
    pub fn handle_request(&mut self, request: Option<ClientRequest>) -> (out: Vec<Response>)
        ensures
            final(self)@ == next_state(old(self)@, request_view(request)),
            out@.len() == 1,
            out@[0]@ == reply(request_view(request)),
    {
        let resp = match request {
            Some(request) => match request {
                ClientRequest::Bye => {
                    self.should_quit = true;
                    Response::Success(Some(String::from_str("Closing connection")))
                },
                ClientRequest::SetTimeout(timeout) => {
                    self.timeout = Some(timeout);
                    Response::Success(None)
                },
                ClientRequest::SetDescription(desc) => {
                    self.description = Some(desc);
                    Response::Success(None)
                },
                ClientRequest::SetPrompt(prompt) => {
                    self.prompt = Some(prompt);
                    Response::Success(None)
                },
                ClientRequest::SetTitle(title) => {
                    self.title = Some(title);
                    Response::Success(None)
                },
                ClientRequest::SetOk(ok_button) => {
                    self.ok_button = Some(ok_button);
                    Response::Success(None)
                },
                ClientRequest::SetCancel(cancel_button) => {
                    self.cancel_button = Some(cancel_button);
                    Response::Success(None)
                },
                ClientRequest::SetNotOk(not_ok_button) => {
                    self.not_ok_button = Some(not_ok_button);
                    Response::Success(None)
                },
                ClientRequest::SetError(error) => {
                    self.error = Some(error);
                    Response::Success(None)
                },
                ClientRequest::SetRepeat => {
                    self.repeat = true;
                    Response::Success(None)
                },
                ClientRequest::SetQualityBar => {
                    self.quality_bar = true;
                    Response::Success(None)
                },
                ClientRequest::SetQualityBarTooltip(tooltip) => {
                    self.quality_bar_tooltip = Some(tooltip);
                    Response::Success(None)
                },
                ClientRequest::SetGenPin => {
                    self.generate_pin = true;
                    Response::Success(None)
                },
                ClientRequest::SetGenPinTooltip(tooltip) => {
                    self.generate_pin_tooltip = Some(tooltip);
                    Response::Success(None)
                },
                ClientRequest::SetKeyInfo(key_info) => {
                    self.key_info = Some(key_info);
                    Response::Success(None)
                },
                ClientRequest::Reset => {
                    self.timeout = None;
                    self.description = None;
                    self.prompt = None;
                    self.title = None;
                    self.ok_button = None;
                    self.cancel_button = None;
                    self.not_ok_button = None;
                    self.error = None;
                    self.repeat = false;
                    self.quality_bar = false;
                    self.quality_bar_tooltip = None;
                    self.generate_pin = false;
                    self.generate_pin_tooltip = None;
                    self.key_info = None;
                    Response::Success(None)
                },
                _ => Response::Error(AssuanError::NotImplemented),
            },
            None => Response::Error(AssuanError::UnknownIPCCommand),
        };
        vec![resp]
    }

    /// Parses one input line, applies it, and returns the status lines to send.
    pub fn handle_line(&mut self, line: &str) -> (out: Vec<String>)
        ensures
            final(self)@ == next_state(old(self)@, request_of(line@)),
            views(out@) == seq![render(reply(request_of(line@)))],
    {
        let responses = self.handle_request(ClientRequest::parse(line));
        let mut out: Vec<String> = Vec::new();
        let mut j: usize = 0;
        while j < responses.len()
            invariant
                j <= responses@.len(),
                views(out@) == responses@.subrange(0, j as int).map_values(
                    |r: Response| render(r@),
                ),
            decreases responses@.len() - j,
        {
            let ghost prev = out@;
            out.push(responses[j].to_string());
            assert(views(out@) =~= views(prev).push(render(responses@[j as int]@)));
            assert(responses@.subrange(0, j + 1).map_values(|r: Response| render(r@))
                =~= responses@.subrange(0, j as int).map_values(|r: Response| render(r@)).push(
                render(responses@[j as int]@),
            ));
            j = j + 1;
        }
        assert(views(out@) =~= seq![render(reply(request_of(line@)))]);
        out
    }

    /// Serves a whole session over the input lines: the greeting, then one
    /// dispatch per line until a `BYE` sets the termination flag or the input ends.
    pub fn run(&mut self, input: &Vec<String>) -> (out: Vec<String>)
        ensures
            final(self)@ == session_run(old(self)@, views(input@)).0,
            views(out@) == seq![greeting_line()] + session_run(old(self)@, views(input@)).1,
    {
        let ghost lines = views(input@);
        let ghost start = self@;
        let mut out: Vec<String> = Vec::new();
        out.push(Pinentry::greeting());
        let ghost mut sent: Seq<Seq<char>> = seq![];
        assert(lines.skip(0) =~= lines);
        assert(views(out@) =~= seq![greeting_line()] + sent);
        let mut i: usize = 0;
        while i < input.len()
            invariant
                i <= input@.len(),
                lines == views(input@),
                start == old(self)@,
                views(out@) == seq![greeting_line()] + sent,
                session_run(start, lines).0 == session_run(self@, lines.skip(i as int)).0,
                session_run(start, lines).1 == sent + session_run(self@, lines.skip(i as int)).1,
            decreases input@.len() - i,
        {
            let ghost before = self@;
            let ghost rest = lines.skip(i as int);
            let mut lines_out = self.handle_line(input[i].as_str());
            let ghost o = render(reply(request_of(lines[i as int])));
            assert(rest[0] == lines[i as int]);
            assert(rest.drop_first() =~= lines.skip(i + 1));
            let ghost prev = out@;
            out.append(&mut lines_out);
            assert(views(out@) =~= views(prev) + seq![o]);
            proof {
                sent = sent + seq![o];
            }
            assert(views(out@) =~= seq![greeting_line()] + sent);
            i = i + 1;
            if self.should_quit {
                assert(session_run(before, rest) == (self@, seq![o]));
                assert(session_run(start, lines).0 == self@);
                assert(sent =~= session_run(start, lines).1);
                return out;
            }
            assert(session_run(start, lines).1 =~= sent + session_run(self@, lines.skip(i as int)).1);
        }
        assert(lines.skip(i as int) =~= seq![]);
        assert(sent =~= session_run(start, lines).1);
        out
    }
}

/// The session after the requests `rs`, applied in order.
pub open spec fn apply_all(s: SessionModel, rs: Seq<Option<RequestModel>>) -> SessionModel
    decreases rs.len(),
{
    if rs.len() == 0 {
        s
    } else {
        apply_all(next_state(s, rs[0]), rs.drop_first())
    }
}

/// `RESET` on a session that has not ended gives back the fresh session.
pub proof fn lemma_reset_restores_initial(s: SessionModel)
    requires
        !s.should_quit,
    ensures
        next_state(s, Some(RequestModel::Reset)) == initial_session(),
{
}

/// `RESET` is idempotent on every session.
pub proof fn lemma_reset_idempotent(s: SessionModel)
    ensures
        next_state(next_state(s, Some(RequestModel::Reset)), Some(RequestModel::Reset))
            == next_state(s, Some(RequestModel::Reset)),
{
}

proof fn lemma_live_without_bye(s: SessionModel, rs: Seq<Option<RequestModel>>)
    requires
        !s.should_quit,
        forall|i: int| 0 <= i < rs.len() ==> #[trigger] rs[i] != Some(RequestModel::Bye),
    ensures
        !apply_all(s, rs).should_quit,
    decreases rs.len(),
{
    if rs.len() > 0 {
        assert(rs[0] != Some(RequestModel::Bye));
        let rest = rs.drop_first();
        assert forall|i: int| 0 <= i < rest.len() implies #[trigger] rest[i] != Some(
            RequestModel::Bye,
        ) by {
            assert(rest[i] == rs[i + 1]);
        }
        lemma_live_without_bye(next_state(s, rs[0]), rest);
    }
}

/// After any requests but `BYE` on a fresh session, a `RESET` brings every field
/// back to its value at session creation.
pub proof fn lemma_reset_after_any_requests(rs: Seq<Option<RequestModel>>)
    requires
        forall|i: int| 0 <= i < rs.len() ==> #[trigger] rs[i] != Some(RequestModel::Bye),
    ensures
        next_state(apply_all(initial_session(), rs), Some(RequestModel::Reset))
            == initial_session(),
{
    lemma_live_without_bye(initial_session(), rs);
}

/// Dispatching `BYE` sets the termination flag and answers with the closing text.
pub proof fn lemma_bye_ends_session(s: SessionModel)
    ensures
        next_state(s, Some(RequestModel::Bye)).should_quit,
        reply(Some(RequestModel::Bye)) == ResponseModel::Success(Some("Closing connection"@)),
{
}

/// Once set, the termination flag is never cleared.
pub proof fn lemma_quit_is_permanent(s: SessionModel, r: Option<RequestModel>)
    requires
        s.should_quit,
    ensures
        next_state(s, r).should_quit,
{
}

/// Once a session has ended, no further input is read: lines after the ending
/// one change neither the final session nor the lines written.
pub proof fn lemma_no_input_after_termination(
    s: SessionModel,
    lines: Seq<Seq<char>>,
    extra: Seq<Seq<char>>,
)
    requires
        lines.len() > 0,
        session_run(s, lines).0.should_quit,
    ensures
        session_run(s, lines + extra) == session_run(s, lines),
    decreases lines.len(),
{
    let all = lines + extra;
    assert(all[0] == lines[0]);
    let s1 = next_state(s, request_of(lines[0]));
    if !s1.should_quit {
        assert(all.drop_first() =~= lines.drop_first() + extra);
        lemma_no_input_after_termination(s1, lines.drop_first(), extra);
    }
}

} // verus!
