//! The request builder: turns a model identifier and the conversation log
//! into the provider-shaped request body. A pure function of its inputs;
//! the numeric generation parameters are fixed constants of the system and
//! streaming is always off.
use vstd::prelude::*;
use crate::escape::append_escaped;
use crate::escape::escape;
use crate::turns::ChatTurn;
use crate::turns::Role;
use crate::turns::TurnView;

verus! {

/// The wire name of a role.
pub open spec fn role_name(r: Role) -> Seq<char> {
    match r {
        Role::System => "system"@,
        Role::User => "user"@,
        Role::Assistant => "assistant"@,
    }
}

/// The wire form of one turn: a JSON object with `role` and `content`.
pub open spec fn turn_json(t: TurnView) -> Seq<char> {
    "{\"role\":\""@ + role_name(t.role) + "\",\"content\":\""@ + escape(t.content) + "\"}"@
}

/// The wire form of a whole log: the turns in conversation order, joined
/// with commas.
pub open spec fn messages_json(ts: Seq<TurnView>) -> Seq<char>
    decreases ts.len(),
{
    if ts.len() == 0 {
        Seq::empty()
    } else if ts.len() == 1 {
        turn_json(ts[0])
    } else {
        messages_json(ts.drop_last()) + ","@ + turn_json(ts.last())
    }
}

/// The full request body: the model, the messages in order, and the fixed
/// generation parameters with streaming disabled.
pub open spec fn payload_json(model: Seq<char>, ts: Seq<TurnView>) -> Seq<char> {
    "{\"model\":\""@ + escape(model) + "\",\"messages\":["@ + messages_json(ts)
        + "],\"max_tokens\":0,\"temperature\":1,\"top_p\":1,\"top_k\":0,\"stream\":false,\"presence_penalty\":0,\"frequency_penalty\":1}"@
}

/// Appends the wire form of one turn.
fn append_turn_json(out: &mut String, t: &ChatTurn)
    ensures
        final(out)@ == old(out)@ + turn_json(t@),
{
    out.append("{\"role\":\"");
    match t.role {
        Role::System => out.append("system"),
        Role::User => out.append("user"),
        Role::Assistant => out.append("assistant"),
    }
    out.append("\",\"content\":\"");
    append_escaped(out, t.content.as_str());
    out.append("\"}");
    proof {
        assert(out@ =~= old(out)@ + turn_json(t@));
    }
}

/// Builds the request body for the given model and log. Pure: no side
/// effects, and the model string is forwarded as-is, unvalidated.
pub fn build_payload(model: &str, turns: &Vec<ChatTurn>) -> (r: String)
    ensures
        r@ == payload_json(model@, turns.deep_view()),
{
    let ghost vs: Seq<TurnView> = turns.deep_view();
    let mut out = String::new();
    out.append("{\"model\":\"");
    append_escaped(&mut out, model);
    out.append("\",\"messages\":[");
    let ghost head: Seq<char> = out@;
    let mut i: usize = 0;
    while i < turns.len()
        invariant
            i <= turns.len(),
            vs == turns.deep_view(),
            vs.len() == turns.len(),
            out@ == head + messages_json(vs.take(i as int)),
        decreases turns.len() - i,
    {
        if i > 0 {
            out.append(",");
        }
        append_turn_json(&mut out, &turns[i]);
        proof {
            assert(vs[i as int] == turns[i as int]@);
            assert(vs.take(i + 1).drop_last() =~= vs.take(i as int));
            assert(vs.take(i + 1).last() == vs[i as int]);
            if i == 0 {
                assert(vs.take(1) =~= seq![vs[0]]);
                assert(messages_json(vs.take(1)) == turn_json(vs[0]));
                assert(out@ =~= head + messages_json(vs.take(i + 1)));
            } else {
                assert(messages_json(vs.take(i + 1)) == messages_json(vs.take(i as int)) + ","@
                    + turn_json(vs[i as int]));
                assert(out@ =~= head + messages_json(vs.take(i + 1)));
            }
        }
        i += 1;
    }
    out.append(
        "],\"max_tokens\":0,\"temperature\":1,\"top_p\":1,\"top_k\":0,\"stream\":false,\"presence_penalty\":0,\"frequency_penalty\":1}",
    );
    proof {
        assert(vs.take(vs.len() as int) =~= vs);
        assert(out@ =~= payload_json(model@, vs));
    }
    out
}

} // verus!
