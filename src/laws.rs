//! What holds of the worker over whole exchanges: requests and the answers
//! the service gives to the operations they lead to.
use vstd::prelude::*;

use crate::protocol::{default_event, is_data_request, list_event, Message};
use crate::types::{DeviceInfo, DeviceKind};
use crate::worker::{
    busy, idle, lost, quiet, resume_spec, submit_spec, Command, Reply, Step, Task, Worker,
};

verus! {

/// The event a step emits, as a sequence of zero or one.
pub open spec fn events_of(s: Step) -> Seq<Message> {
    match s.event {
        Some(m) => seq![m],
        None => Seq::empty(),
    }
}

/// The command a step asks for, as a sequence of zero or one.
pub open spec fn commands_of(s: Step) -> Seq<Command> {
    match s.command {
        Some(c) => seq![c],
        None => Seq::empty(),
    }
}

/// Hands the answers in turn to a busy worker, until it is idle or the
/// answers run out: the worker then, the commands asked for and the events
/// emitted on the way.
pub open spec fn feed(w: Worker, rs: Seq<Reply>) -> (Worker, Seq<Command>, Seq<Message>)
    decreases rs.len(),
{
    if rs.len() == 0 || w.is_idle() {
        (w, Seq::empty(), Seq::empty())
    } else {
        let (w1, s) = resume_spec(w, rs[0]);
        let (w2, cs, es) = feed(w1, rs.drop_first());
        (w2, commands_of(s) + cs, events_of(s) + es)
    }
}

/// One request, then its answers.
pub open spec fn serve(w: Worker, req: Message, rs: Seq<Reply>) -> (
    Worker,
    Seq<Command>,
    Seq<Message>,
) {
    let (w1, s) = submit_spec(w, req);
    let (w2, cs, es) = feed(w1, rs);
    (w2, commands_of(s) + cs, events_of(s) + es)
}

/// Requests served one after the other, each with its own answers: the
/// worker at the end and all events emitted, in order.
pub open spec fn session(w: Worker, reqs: Seq<Message>, answers: Seq<Seq<Reply>>) -> (
    Worker,
    Seq<Message>,
)
    decreases reqs.len(),
{
    if reqs.len() == 0 || answers.len() == 0 {
        (w, Seq::empty())
    } else {
        let (w1, _, es) = serve(w, reqs[0], answers[0]);
        let (w2, es2) = session(w1, reqs.drop_first(), answers.drop_first());
        (w2, es + es2)
    }
}

/// The answers with which the service serves a data read successfully.
pub open spec fn answers_read(req: Message, rs: Seq<Reply>) -> bool {
    match req {
        Message::GetSinks | Message::GetSources => rs.len() == 1 && rs[0] matches Reply::Devices(
            Ok(_),
        ),
        Message::GetDefaultSink => rs.len() == 2 && (rs[0] matches Reply::Server(Ok(info))
            && info.default_sink_name is Some) && rs[1] matches Reply::Device(Ok(_)),
        Message::GetDefaultSource => rs.len() == 2 && (rs[0] matches Reply::Server(Ok(info))
            && info.default_source_name is Some) && rs[1] matches Reply::Device(Ok(_)),
        _ => false,
    }
}

/// The data event that answers a read served with these answers.
pub open spec fn read_event(req: Message, rs: Seq<Reply>) -> Message {
    match req {
        Message::GetSinks => match rs[0] {
            Reply::Devices(Ok(l)) => list_event(DeviceKind::Sink, l),
            _ => Message::Disconnected,
        },
        Message::GetSources => match rs[0] {
            Reply::Devices(Ok(l)) => list_event(DeviceKind::Source, l),
            _ => Message::Disconnected,
        },
        Message::GetDefaultSink => match rs[1] {
            Reply::Device(Ok(d)) => default_event(DeviceKind::Sink, d),
            _ => Message::Disconnected,
        },
        Message::GetDefaultSource => match rs[1] {
            Reply::Device(Ok(d)) => default_event(DeviceKind::Source, d),
            _ => Message::Disconnected,
        },
        _ => Message::Disconnected,
    }
}

/// A connected, idle worker serves one successful read with exactly the
/// matching data event and is connected and idle again.
pub proof fn lemma_read_served(w: Worker, req: Message, rs: Seq<Reply>)
    requires
        w.wf(),
        w.is_idle(),
        w.connected,
        answers_read(req, rs),
    ensures
        serve(w, req, rs).0 == idle(true),
        serve(w, req, rs).2 == seq![read_event(req, rs)],
{
    let w1 = submit_spec(w, req).0;
    match req {
        Message::GetSinks | Message::GetSources => {
            assert(rs.drop_first().len() == 0);
            let r1 = resume_spec(w1, rs[0]);
            assert(feed(r1.0, rs.drop_first()) == (r1.0, Seq::<Command>::empty(), Seq::<Message>::empty()));
            assert(events_of(r1.1) =~= seq![read_event(req, rs)]);
            assert(serve(w, req, rs).2 =~= seq![read_event(req, rs)]);
        },
        _ => {
            let r1 = resume_spec(w1, rs[0]);
            let rest = rs.drop_first();
            assert(rest[0] == rs[1]);
            assert(rest.drop_first().len() == 0);
            let r2 = resume_spec(r1.0, rest[0]);
            assert(feed(r2.0, rest.drop_first()) == (r2.0, Seq::<Command>::empty(), Seq::<Message>::empty()));
            assert(events_of(r2.1) =~= seq![read_event(req, rs)]);
            assert(feed(r1.0, rest).2 =~= seq![read_event(req, rs)]);
            assert(serve(w, req, rs).2 =~= seq![read_event(req, rs)]);
        },
    }
}

/// A connected worker that is sent any number of reads, each served
/// successfully, emits exactly one data event per read, the matching one, in
/// the order the reads were sent, and stays connected.
pub proof fn lemma_reads_in_order(w: Worker, reqs: Seq<Message>, answers: Seq<Seq<Reply>>)
    requires
        w.wf(),
        w.is_idle(),
        w.connected,
        reqs.len() == answers.len(),
        forall|i: int| 0 <= i < reqs.len() ==> answers_read(#[trigger] reqs[i], answers[i]),
    ensures
        session(w, reqs, answers).0 == idle(true),
        session(w, reqs, answers).1 == Seq::new(
            reqs.len(),
            |i: int| read_event(reqs[i], answers[i]),
        ),
    decreases reqs.len(),
{
    if reqs.len() == 0 {
        assert(session(w, reqs, answers).1 =~= Seq::new(
            reqs.len(),
            |i: int| read_event(reqs[i], answers[i]),
        ));
    } else {
        assert(answers_read(reqs[0], answers[0]));
        lemma_read_served(w, reqs[0], answers[0]);
        let w1 = serve(w, reqs[0], answers[0]).0;
        let rq = reqs.drop_first();
        let an = answers.drop_first();
        assert forall|i: int| 0 <= i < rq.len() implies answers_read(#[trigger] rq[i], an[i]) by {
            assert(rq[i] == reqs[i + 1]);
            assert(answers_read(reqs[i + 1], answers[i + 1]));
        }
        lemma_reads_in_order(w1, rq, an);
        assert(session(w, reqs, answers).1 =~= Seq::new(
            reqs.len(),
            |i: int| read_event(reqs[i], answers[i]),
        ));
    }
}

/// Without a connection, every data request is dropped: no operation, no
/// event, and the worker is left as it was.
pub proof fn lemma_disconnected_drops(w: Worker, req: Message)
    requires
        w.wf(),
        w.is_idle(),
        !w.connected,
        is_data_request(req),
    ensures
        submit_spec(w, req) == (w, quiet()),
{
}

/// A connection update on a live connection probes it; a successful probe
/// emits nothing and leaves the worker connected and idle.
pub proof fn lemma_probe_kept(w: Worker, answer: Reply)
    requires
        w.wf(),
        w.is_idle(),
        w.connected,
        answer matches Reply::Server(Ok(_)),
    ensures
        serve(w, Message::UpdateConnection, seq![answer]).0 == w,
        serve(w, Message::UpdateConnection, seq![answer]).2 == Seq::<Message>::empty(),
{
    let w1 = submit_spec(w, Message::UpdateConnection).0;
    let r1 = resume_spec(w1, answer);
    assert(seq![answer].drop_first().len() == 0);
    assert(feed(r1.0, seq![answer].drop_first()) == (r1.0, Seq::<Command>::empty(), Seq::<Message>::empty()));
    assert(serve(w, Message::UpdateConnection, seq![answer]).2 =~= Seq::<Message>::empty());
}

/// A connection update on a live connection whose probe fails emits exactly
/// one `Disconnected`; every data request after it is dropped until a
/// connection update succeeds.
pub proof fn lemma_probe_lost(w: Worker, answer: Reply, next: Message)
    requires
        w.wf(),
        w.is_idle(),
        w.connected,
        !(answer matches Reply::Server(Ok(_))),
        is_data_request(next),
    ensures
        serve(w, Message::UpdateConnection, seq![answer]).0 == idle(false),
        serve(w, Message::UpdateConnection, seq![answer]).2 == seq![Message::Disconnected],
        submit_spec(idle(false), next) == (idle(false), quiet()),
{
    let w1 = submit_spec(w, Message::UpdateConnection).0;
    let r1 = resume_spec(w1, answer);
    assert(r1 == lost());
    assert(seq![answer].drop_first().len() == 0);
    assert(feed(r1.0, seq![answer].drop_first()) == (r1.0, Seq::<Command>::empty(), Seq::<Message>::empty()));
    assert(serve(w, Message::UpdateConnection, seq![answer]).2 =~= seq![Message::Disconnected]);
}

/// A default switch to a device without a name is dropped: no operation, no
/// event, and the worker is left as it was.
pub proof fn lemma_nameless_switch_dropped(w: Worker, d: DeviceInfo)
    requires
        w.wf(),
        w.is_idle(),
        d.name is None,
    ensures
        submit_spec(w, Message::SetDefaultSink(d)) == (w, quiet()),
        submit_spec(w, Message::SetDefaultSource(d)) == (w, quiet()),
{
}

/// The answers to a run of stream moves.
pub open spec fn move_answers(flags: Seq<bool>) -> Seq<Reply> {
    Seq::new(flags.len(), |i: int| Reply::Flag(flags[i]))
}

/// One move command per stream from position `i` on, in order.
pub open spec fn moves_from(k: DeviceKind, n: String, mv: Seq<u32>, i: int) -> Seq<Command> {
    Seq::new((mv.len() - i) as nat, |j: int| Command::MoveStream(k, mv[i + j], n))
}

/// Once stream moves are under way, the worker asks to move each remaining
/// stream in turn and then reports the new default, whatever each move came
/// to.
pub proof fn lemma_moves_then_report(
    k: DeviceKind,
    t: DeviceInfo,
    n: String,
    mv: Vec<u32>,
    i: usize,
    flags: Seq<bool>,
)
    requires
        1 <= i <= mv@.len(),
        mv@.len() <= usize::MAX,
        flags.len() == mv@.len() - i + 1,
    ensures
        feed(busy(Task::Moving(k, t, n, mv, i)), move_answers(flags)).0 == idle(true),
        feed(busy(Task::Moving(k, t, n, mv, i)), move_answers(flags)).1 == moves_from(
            k,
            n,
            mv@,
            i as int,
        ),
        feed(busy(Task::Moving(k, t, n, mv, i)), move_answers(flags)).2 == seq![
            default_event(k, t),
        ],
    decreases mv@.len() - i,
{
    let w = busy(Task::Moving(k, t, n, mv, i));
    let rs = move_answers(flags);
    let r1 = resume_spec(w, rs[0]);
    if i < mv@.len() {
        let rest = flags.drop_first();
        assert(move_answers(rest) =~= rs.drop_first());
        lemma_moves_then_report(k, t, n, mv, (i + 1) as usize, rest);
        assert(feed(w, rs).1 =~= moves_from(k, n, mv@, i as int));
    } else {
        assert(rs.drop_first().len() == 0);
        assert(feed(r1.0, rs.drop_first()) == (r1.0, Seq::<Command>::empty(), Seq::<Message>::empty()));
        assert(feed(w, rs).1 =~= moves_from(k, n, mv@, i as int));
        assert(feed(w, rs).2 =~= seq![default_event(k, t)]);
    }
}

/// Once the new default is assigned, the worker asks to move every stream
/// that was on the old default, one command each and in order, and then
/// emits exactly one event that reports the new default, whether or not any
/// of the moves succeeded.
pub proof fn lemma_switch_reported_despite_moves(
    k: DeviceKind,
    t: DeviceInfo,
    n: String,
    mv: Vec<u32>,
    flags: Seq<bool>,
)
    requires
        flags.len() == mv@.len(),
        mv@.len() <= usize::MAX,
    ensures
        feed(busy(Task::Assigning(k, t, n, mv)), seq![Reply::Flag(true)] + move_answers(flags)).0
            == idle(true),
        feed(busy(Task::Assigning(k, t, n, mv)), seq![Reply::Flag(true)] + move_answers(flags)).1
            == moves_from(k, n, mv@, 0),
        feed(busy(Task::Assigning(k, t, n, mv)), seq![Reply::Flag(true)] + move_answers(flags)).2
            == seq![default_event(k, t)],
{
    let w = busy(Task::Assigning(k, t, n, mv));
    let rs = seq![Reply::Flag(true)] + move_answers(flags);
    assert(rs[0] == Reply::Flag(true));
    assert(rs.drop_first() =~= move_answers(flags));
    let r1 = resume_spec(w, rs[0]);
    if mv@.len() == 0 {
        assert(feed(r1.0, rs.drop_first()) == (r1.0, Seq::<Command>::empty(), Seq::<Message>::empty()));
        assert(feed(w, rs).1 =~= moves_from(k, n, mv@, 0));
        assert(feed(w, rs).2 =~= seq![default_event(k, t)]);
    } else {
        lemma_moves_then_report(k, t, n, mv, 1, flags);
        assert(feed(w, rs).1 =~= moves_from(k, n, mv@, 0));
        assert(feed(w, rs).2 =~= seq![default_event(k, t)]);
    }
}

} // verus!
