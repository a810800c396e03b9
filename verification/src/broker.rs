//! The session broker: the exclusive owner of the conversation log. A
//! request is one call pair: `begin_request` mutates the log and builds
//! the payload, the caller performs the network hop, and `finish_request`
//! records the outcome. The split keeps the log's critical section free of
//! the hop, so a host may guard a `Session` with one lock, release it
//! around the hop, and re-enter; interleaved turns from concurrent callers
//! are accepted behavior.
use vstd::prelude::*;
use crate::payload::build_payload;
use crate::payload::payload_json;
use crate::reply::decode_reply;
use crate::reply::decoded_reply;
use crate::reply::reply_text;
use crate::turns::assistant_turn;
use crate::turns::make_system_turn;
use crate::turns::system_turn;
use crate::turns::user_turn;
use crate::turns::ChatTurn;
use crate::turns::Role;
use crate::turns::TurnView;

verus! {

/// Why a request produced no assistant reply. The user turn appended for
/// the request stays in the log either way: what was asked is part of the
/// transcript even when nothing was answered.
#[derive(Debug)]
pub enum RequestError {
    /// The network hop failed before a body was received; carries the
    /// transport's own message.
    Send(String),
    /// A body was received but is not valid JSON.
    Decode,
}

impl RequestError {
    /// A human-readable account of the failure, for the caller-facing
    /// string boundary.
    pub fn message(&self) -> (r: String)
        ensures
            match self {
                RequestError::Send(m) => r@ == m@,
                RequestError::Decode => r@ == "response body is not valid JSON"@,
            },
    {
        match self {
            RequestError::Send(m) => m.clone(),
            RequestError::Decode => String::from_str("response body is not valid JSON"),
        }
    }
}

/// A conversation session: the ordered, append-only log of turns, from one
/// clear (or startup) to the next.
pub struct Session {
    turns: Vec<ChatTurn>,
}

impl Session {
    /// The transcript in conversation order.
    pub closed spec fn log(&self) -> Seq<TurnView> {
        self.turns.deep_view()
    }

    /// The log's invariant: when non-empty it starts with the one system
    /// preamble turn, and no other turn is a system turn.
    pub open spec fn wf(&self) -> bool {
        self.log().len() > 0 ==> {
            &&& self.log()[0] == system_turn()
            &&& forall|i: int| 1 <= i < self.log().len() ==> self.log()[i].role != Role::System
        }
    }

    /// A fresh session with an empty log.
    pub fn new() -> (r: Session)
        ensures
            r.log() == Seq::<TurnView>::empty(),
            r.wf(),
    {
        let s = Session { turns: Vec::new() };
        proof {
            assert(s.log() =~= Seq::<TurnView>::empty());
        }
        s
    }

    /// How many turns the log holds.
    pub fn turn_count(&self) -> (r: usize)
        ensures
            r == self.log().len(),
    {
        self.turns.len()
    }

    /// The turn at one position of the log.
    pub fn turn_at(&self, i: usize) -> (r: &ChatTurn)
        requires
            i < self.log().len(),
        ensures
            r@ == self.log()[i as int],
    {
        &self.turns[i]
    }

    /// A consistent point-in-time copy of the log, for serialization or
    /// display.
    pub fn snapshot(&self) -> (r: Vec<ChatTurn>)
        ensures
            r.deep_view() == self.log(),
    {
        let mut out: Vec<ChatTurn> = Vec::new();
        let mut i: usize = 0;
        proof {
            assert(out.deep_view() =~= self.log().take(0));
        }
        while i < self.turns.len()
            invariant
                i <= self.turns.len(),
                self.turns.deep_view() == self.log(),
                out.deep_view() == self.log().take(i as int),
            decreases self.turns.len() - i,
        {
            let t = &self.turns[i];
            let ghost before = out.deep_view();
            let copy = ChatTurn { role: t.role, content: t.content.clone() };
            let ghost cv = copy@;
            out.push(copy);
            proof {
                assert(cv == self.log()[i as int]);
                assert(out.deep_view() =~= before.push(cv));
                assert(out.deep_view() =~= self.log().take(i + 1));
            }
            i += 1;
        }
        proof {
            assert(self.log().take(self.log().len() as int) =~= self.log());
        }
        out
    }

    /// Empties the log; the next request reinserts the system preamble.
    pub fn clear(&mut self)
        ensures
            final(self).log() == Seq::<TurnView>::empty(),
            final(self).wf(),
    {
        self.turns.clear();
        proof {
            assert(self.log() =~= Seq::<TurnView>::empty());
        }
    }

    /// Inserts the fixed system turn when the log is empty, exactly once
    /// per session; an already-started session is left alone.
    pub fn ensure_system_preamble(&mut self)
        requires
            old(self).wf(),
        ensures
            final(self).wf(),
            final(self).log().len() > 0,
            old(self).log().len() == 0 ==> final(self).log() == seq![system_turn()],
            old(self).log().len() > 0 ==> final(self).log() == old(self).log(),
    {
        if self.turns.len() == 0 {
            let t = make_system_turn();
            let ghost tv = t@;
            self.turns.push(t);
            proof {
                assert(self.log() =~= seq![tv]);
            }
        }
    }

    /// Appends a user turn with the given text; append-only.
    pub fn append_user(&mut self, text: &str)
        requires
            old(self).wf(),
            old(self).log().len() > 0,
        ensures
            final(self).wf(),
            final(self).log() == old(self).log().push(user_turn(text@)),
    {
        let u = ChatTurn { role: Role::User, content: String::from_str(text) };
        let ghost uv = u@;
        self.turns.push(u);
        proof {
            assert(self.log() =~= old(self).log().push(uv));
        }
    }

    /// Appends an assistant turn with the given text; append-only.
    pub fn append_assistant(&mut self, text: &str)
        requires
            old(self).wf(),
            old(self).log().len() > 0,
        ensures
            final(self).wf(),
            final(self).log() == old(self).log().push(assistant_turn(text@)),
    {
        let a = ChatTurn { role: Role::Assistant, content: String::from_str(text) };
        let ghost av = a@;
        self.turns.push(a);
        proof {
            assert(self.log() =~= old(self).log().push(av));
        }
    }

    /// Starts a request: clears the log if asked, ensures the system
    /// preamble, appends the user turn, and returns the exact request body
    /// for the provider. Without a clear the log only grows and no
    /// recorded turn changes.
    pub fn begin_request(&mut self, model: &str, input: &str, clear_history: bool) -> (payload:
        String)
        requires
            old(self).wf(),
        ensures
            final(self).wf(),
            final(self).log().len() > 0,
            clear_history || old(self).log().len() == 0 ==> final(self).log() == seq![
                system_turn(),
                user_turn(input@),
            ],
            !clear_history && old(self).log().len() > 0 ==> final(self).log() == old(
                self,
            ).log().push(user_turn(input@)),
            !clear_history ==> old(self).log().is_prefix_of(final(self).log()),
            payload@ == payload_json(model@, final(self).log()),
    {
        if clear_history {
            self.clear();
        }
        let ghost base = self.log();
        self.ensure_system_preamble();
        self.append_user(input);
        proof {
            if clear_history || base.len() == 0 {
                assert(self.log() =~= seq![system_turn(), user_turn(input@)]);
            }
        }
        build_payload(model, &self.turns)
    }

    /// Finishes a request with the transport's outcome: the response body,
    /// or the transport's failure message. On a decodable body the
    /// assistant turn is appended — empty when the reply path is absent —
    /// and its text returned; on a send or decode failure the log is left
    /// exactly as it was, the user turn not rolled back.
    pub fn finish_request(&mut self, outcome: Result<String, String>) -> (r: Result<
        String,
        RequestError,
    >)
        requires
            old(self).wf(),
            old(self).log().len() > 0,
        ensures
            final(self).wf(),
            old(self).log().is_prefix_of(final(self).log()),
            match outcome {
                Ok(body) => match decoded_reply(body@) {
                    Some(_) => {
                        &&& r matches Ok(t) && t@ == reply_text(body@)
                        &&& final(self).log() == old(self).log().push(
                            assistant_turn(reply_text(body@)),
                        )
                    },
                    None => {
                        &&& r matches Err(e) && e is Decode
                        &&& final(self).log() == old(self).log()
                    },
                },
                Err(msg) => {
                    &&& r matches Err(e) && e matches RequestError::Send(m) && m@ == msg@
                    &&& final(self).log() == old(self).log()
                },
            },
    {
        match outcome {
            Ok(body) => {
                match decode_reply(body.as_str()) {
                    Ok(opt) => {
                        let text: String = match opt {
                            Some(t) => t,
                            None => String::new(),
                        };
                        proof {
                            assert(text@ == reply_text(body@));
                        }
                        self.append_assistant(text.as_str());
                        Ok(text)
                    },
                    Err(_) => Err(RequestError::Decode),
                }
            },
            Err(msg) => Err(RequestError::Send(msg)),
        }
    }
}

} // verus!
