//! What exchanges of messages with a server come to as a whole.

use vstd::prelude::*;
use vstd::utf8::{encode_utf8, valid_utf8};

use crate::api::{error_heading, error_text, ErrorClass, ErrorView, FilePeekerError};
use crate::connection::control::{
    accepts, authenticate_stream, control_message, control_next, request_text, shutdown_next, ControlEvent, ControlPhase, ControlRequest, ShutdownEvent,
    ShutdownPhase,
};
use crate::io_error::{IoError, IoErrorKind};
use crate::operations::{
    absolute_answer, current_root, exchange_next, joined_bytes, operation_hello, operation_hello_error,
    pull_answer, ExchangeEvent,
    ExchangePhase, ListingItem,
};
use crate::protocol::{
    code_text, control_hello_error, decoded, frame_feed, line_error, ClientMessage, ErrorCode, FrameStep, ServerMessage,
};
use crate::startup::hello::{control_hello, hello_next, HelloEvent, HelloPhase};
use crate::text_laws::{ends_in, lemma_ends_in};

verus! {

/// Whether an exchange goes through `phases`, from one to the next by each of `events`.
pub open spec fn exchange_goes(phases: Seq<ExchangePhase>, events: Seq<ExchangeEvent>) -> bool {
    &&& phases.len() == events.len() + 1
    &&& forall|k: int|
        0 <= k < events.len() ==> exchange_next(phases[k], #[trigger] events[k], phases[k + 1])
}

proof fn lemma_exchange_reads(
    phases: Seq<ExchangePhase>,
    events: Seq<ExchangeEvent>,
    message: Seq<u8>,
    k: int,
)
    requires
        exchange_goes(phases, events),
        phases[0] is Encode,
        events.len() >= message.len() + 2,
        events[0] matches ExchangeEvent::Encoded(Ok(_)),
        events[1] matches ExchangeEvent::Written(Ok(_)),
        forall|i: int|
            2 <= i < message.len() + 2 ==> #[trigger] events[i] == ExchangeEvent::ByteRead(
                Ok(Some(message[i - 2])),
            ),
        !message.contains(10u8),
        message.len() <= 1048576,
        0 <= k <= message.len(),
    ensures
        phases[k + 2] matches ExchangePhase::Read(frame) && frame@ == message.take(k),
    decreases k,
{
    assert(exchange_next(phases[0], events[0], phases[1]));
    assert(exchange_next(phases[1], events[1], phases[2]));
    if k == 0 {
        assert(message.take(0) =~= Seq::<u8>::empty());
    } else {
        lemma_exchange_reads(phases, events, message, k - 1);
        let i = k + 1;
        assert(exchange_next(phases[i], events[i], phases[i + 1]));
        assert(message.contains(message[k - 1]));
        assert(message.take(k) =~= message.take(k - 1).push(message[k - 1]));
    }
}

/// An answer is read whole: where a message was sent and the server sends the bytes of a message
/// and a line feed, exactly these bytes are decoded, and what they decode to is the answer.
pub proof fn law_answers_are_read_whole(
    phases: Seq<ExchangePhase>,
    events: Seq<ExchangeEvent>,
    message: Seq<u8>,
    answer: ServerMessage,
)
    requires
        exchange_goes(phases, events),
        phases[0] is Encode,
        events.len() == message.len() + 4,
        events[0] matches ExchangeEvent::Encoded(Ok(_)),
        events[1] matches ExchangeEvent::Written(Ok(_)),
        forall|i: int|
            2 <= i < message.len() + 2 ==> #[trigger] events[i] == ExchangeEvent::ByteRead(
                Ok(Some(message[i - 2])),
            ),
        events[message.len() as int + 2] == ExchangeEvent::ByteRead(Ok(Some(10u8))),
        events[message.len() as int + 3] == ExchangeEvent::Decoded(Ok(answer)),
        !message.contains(10u8),
        message.len() <= 1048576,
    ensures
        phases[message.len() as int + 3] matches ExchangePhase::Decode(bytes) && bytes@ == message,
        phases[message.len() as int + 4] == ExchangePhase::Answered(answer),
{
    let n = message.len() as int;
    lemma_exchange_reads(phases, events, message, n);
    assert(message.take(n) =~= message);
    assert(exchange_next(phases[n + 2], events[n + 2], phases[n + 3]));
    assert(exchange_next(phases[n + 3], events[n + 3], phases[n + 4]));
}

/// An exchange that ends without an answer says why: a message that cannot be encoded or decoded
/// and an answer that is too long are errors of the protocol, and a connection that cannot be
/// written to or read from is lost. The words that came with a failure are told.
pub proof fn law_exchange_failures_are_told(
    phase: ExchangePhase,
    event: ExchangeEvent,
    after: ExchangePhase,
)
    requires
        exchange_next(phase, event, after),
        after is Failed,
        !(phase is Failed),
    ensures
        event matches ExchangeEvent::Encoded(result) ==> phase is Encode && (result matches Err(
            words,
        ) && after->Failed_0@.class == ErrorClass::Protocol && ends_in(
            after->Failed_0@.message,
            words@,
        )),
        event matches ExchangeEvent::Written(result) ==> phase is Write && (result matches Err(e)
            && after->Failed_0@.class == ErrorClass::ConnectionClosed && ends_in(
            after->Failed_0@.message,
            e.message@,
        )),
        event matches ExchangeEvent::Decoded(result) ==> phase is Decode && (result matches Err(
            words,
        ) && after->Failed_0@.class == ErrorClass::Protocol && ends_in(
            after->Failed_0@.message,
            words@,
        )),
        event matches ExchangeEvent::ByteRead(Err(e)) ==> after->Failed_0@.class
            == ErrorClass::ConnectionClosed && ends_in(after->Failed_0@.message, e.message@),
        event matches ExchangeEvent::ByteRead(Ok(None)) ==> after->Failed_0@.class
            == ErrorClass::ConnectionClosed,
        event matches ExchangeEvent::ByteRead(Ok(Some(byte))) ==> after->Failed_0@.class
            == ErrorClass::Protocol && byte != 10 && (phase matches ExchangePhase::Read(frame)
            && frame@.len() >= 1048576),
{
    match event {
        ExchangeEvent::Encoded(Err(words)) => {
            lemma_ends_in("cannot encode client message: "@, words@);
        },
        ExchangeEvent::Written(Err(e)) => {
            lemma_ends_in("cannot write server request: "@, e.message@);
        },
        ExchangeEvent::Decoded(Err(words)) => {
            lemma_ends_in("server returned invalid JSON: "@, words@);
        },
        ExchangeEvent::ByteRead(Err(e)) => {
            lemma_ends_in("cannot read server response: "@, e.message@);
        },
        _ => {},
    }
}

/// Whether a first exchange goes through `phases`, from one to the next by each of `events`.
pub open spec fn hello_goes(phases: Seq<HelloPhase>, events: Seq<HelloEvent>) -> bool {
    &&& phases.len() == events.len() + 1
    &&& forall|k: int|
        0 <= k < events.len() ==> hello_next(phases[k], #[trigger] events[k], phases[k + 1])
}

proof fn lemma_hello_reads(
    phases: Seq<HelloPhase>,
    events: Seq<HelloEvent>,
    message: Seq<u8>,
    k: int,
)
    requires
        hello_goes(phases, events),
        phases[0] is Encode,
        events.len() >= message.len() + 3,
        events[0] matches HelloEvent::Encoded(Ok(_)),
        events[1] matches HelloEvent::Sent(Ok(_)),
        events[2] matches HelloEvent::Flushed(Ok(_)),
        forall|i: int|
            3 <= i < message.len() + 3 ==> #[trigger] events[i] == HelloEvent::ByteRead(
                Ok(Some(message[i - 3])),
            ),
        !message.contains(10u8),
        0 <= k <= message.len(),
    ensures
        phases[k + 3] matches HelloPhase::Read(frame) && frame@ == message.take(k),
    decreases k,
{
    assert(hello_next(phases[0], events[0], phases[1]));
    assert(hello_next(phases[1], events[1], phases[2]));
    assert(hello_next(phases[2], events[2], phases[3]));
    if k == 0 {
        assert(message.take(0) =~= Seq::<u8>::empty());
    } else {
        lemma_hello_reads(phases, events, message, k - 1);
        let i = k + 2;
        assert(hello_next(phases[i], events[i], phases[i + 1]));
        assert(message.contains(message[k - 1]));
        assert(message.take(k) =~= message.take(k - 1).push(message[k - 1]));
    }
}

/// The answer to a greeting is read whole, however long it is, and a server that answers with the
/// version spoken here has been greeted.
pub proof fn law_servers_of_this_version_are_greeted(
    phases: Seq<HelloPhase>,
    events: Seq<HelloEvent>,
    message: Seq<u8>,
    answer: ServerMessage,
)
    requires
        hello_goes(phases, events),
        phases[0] is Encode,
        events.len() == message.len() + 5,
        events[0] matches HelloEvent::Encoded(Ok(_)),
        events[1] matches HelloEvent::Sent(Ok(_)),
        events[2] matches HelloEvent::Flushed(Ok(_)),
        forall|i: int|
            3 <= i < message.len() + 3 ==> #[trigger] events[i] == HelloEvent::ByteRead(
                Ok(Some(message[i - 3])),
            ),
        events[message.len() as int + 3] == HelloEvent::ByteRead(Ok(Some(10u8))),
        events[message.len() as int + 4] == HelloEvent::Decoded(Ok(answer)),
        !message.contains(10u8),
    ensures
        phases[message.len() as int + 4] matches HelloPhase::Decode(bytes) && bytes@ == message,
        phases[message.len() as int + 5] is Greeted <==> (answer matches ServerMessage::HelloOk {
            version,
        } && version == 1),
        phases[message.len() as int + 5] is Greeted || phases[message.len() as int + 5] is Failed,
{
    let n = message.len() as int;
    lemma_hello_reads(phases, events, message, n);
    assert(message.take(n) =~= message);
    assert(hello_next(phases[n + 3], events[n + 3], phases[n + 4]));
    assert(hello_next(phases[n + 4], events[n + 4], phases[n + 5]));
}

/// A first exchange that fails says why: a connection that cannot be written to or read from is
/// lost, anything else is an error of the protocol, and the words that came with it are told.
pub proof fn law_greeting_failures_are_told(phase: HelloPhase, event: HelloEvent, after: HelloPhase)
    requires
        hello_next(phase, event, after),
        after is Failed,
        !(phase is Failed),
    ensures
        event matches HelloEvent::Encoded(result) ==> phase is Encode && (result matches Err(words)
            && after->Failed_0@.class == ErrorClass::Protocol && ends_in(
            after->Failed_0@.message,
            words@,
        )),
        event matches HelloEvent::Sent(result) ==> phase is Send && (result matches Err(e)
            && after->Failed_0@.class == ErrorClass::ConnectionClosed && ends_in(
            after->Failed_0@.message,
            e.message@,
        )),
        event matches HelloEvent::Flushed(result) ==> phase is Flush && (result matches Err(e)
            && after->Failed_0@.class == ErrorClass::ConnectionClosed && ends_in(
            after->Failed_0@.message,
            e.message@,
        )),
        event matches HelloEvent::ByteRead(result) ==> phase is Read && after->Failed_0@.class
            == ErrorClass::ConnectionClosed && !(result matches Ok(Some(_))),
        event matches HelloEvent::ByteRead(Err(e)) ==> ends_in(
            after->Failed_0@.message,
            e.message@,
        ),
        event matches HelloEvent::Decoded(result) ==> phase is Decode && after->Failed_0@.class
            == ErrorClass::Protocol,
        event matches HelloEvent::Decoded(Err(words)) ==> ends_in(
            after->Failed_0@.message,
            words@,
        ),
{
    match event {
        HelloEvent::Encoded(Err(words)) => {
            lemma_ends_in("cannot encode control hello: "@, words@);
        },
        HelloEvent::Sent(Err(e)) => {
            lemma_ends_in("cannot send control hello: "@, e.message@);
        },
        HelloEvent::Flushed(Err(e)) => {
            lemma_ends_in("cannot flush control hello: "@, e.message@);
        },
        HelloEvent::ByteRead(Err(e)) => {
            lemma_ends_in("cannot read control handshake: "@, e.message@);
        },
        HelloEvent::Decoded(Err(words)) => {
            lemma_ends_in("server returned invalid JSON: "@, words@);
        },
        _ => {},
    }
}

/// A greeting has succeeded exactly where the server answers that it speaks this version. A server
/// that refuses has its words told.
pub proof fn law_greetings_settle_the_version(answer: ServerMessage)
    ensures
        control_hello_error(answer) is None <==> (answer matches ServerMessage::HelloOk { version }
            && version == 1),
        operation_hello_error(answer) is None <==> (answer matches ServerMessage::HelloOk {
            version,
        } && version == 1),
        control_hello_error(answer) matches Some(e) ==> e.class == ErrorClass::Protocol,
        answer matches ServerMessage::Error { code, message } ==> {
            &&& ends_in(control_hello_error(answer)->Some_0.message, message@)
            &&& operation_hello_error(answer)->Some_0.message == message@
            &&& operation_hello_error(answer)->Some_0.class == (if code == ErrorCode::InvalidPath {
                ErrorClass::InvalidPath
            } else if code == ErrorCode::UnsupportedVersion {
                ErrorClass::Protocol
            } else {
                ErrorClass::Io
            })
        },
{
    if let ServerMessage::Error { code, message } = answer {
        let head = "server rejected control handshake ("@ + code_text(code) + "): "@;
        lemma_ends_in(head, message@);
    }
}

proof fn lemma_frame_grows(frame: Seq<u8>, bytes: Seq<u8>, limit: Option<usize>)
    requires
        !bytes.contains(10u8),
        limit matches Some(n) ==> frame.len() + bytes.len() <= n,
    ensures
        frame_feed(frame, bytes, limit) == (frame + bytes, FrameStep::Partial),
    decreases bytes.len(),
{
    if bytes.len() == 0 {
        assert(frame + bytes =~= frame);
    } else {
        assert(bytes.contains(bytes[0]));
        let rest = bytes.skip(1);
        assert forall|i: int| 0 <= i < rest.len() implies rest[i] != 10u8 by {
            assert(bytes.contains(bytes[i + 1]));
        }
        lemma_frame_grows(frame.push(bytes[0]), rest, limit);
        assert(frame.push(bytes[0]) + rest =~= frame + bytes);
    }
}

proof fn lemma_frame_overflows(frame: Seq<u8>, bytes: Seq<u8>, limit: usize)
    requires
        bytes.len() > 0,
        frame.len() <= limit,
        frame.len() + bytes.len() > limit,
        forall|i: int| 0 <= i <= limit - frame.len() ==> #[trigger] bytes[i] != 10u8,
    ensures
        frame_feed(frame, bytes, Some(limit)).1 is TooLong,
    decreases bytes.len(),
{
    assert(bytes[0] != 10u8);
    if frame.len() < limit {
        let rest = bytes.skip(1);
        assert forall|i: int| 0 <= i <= limit - frame.push(bytes[0]).len() implies #[trigger] rest[i]
            != 10u8 by {
            assert(rest[i] == bytes[i + 1]);
        }
        lemma_frame_overflows(frame.push(bytes[0]), rest, limit);
    }
}

/// A message without its line feed is not complete yet, and one that is longer than the limit is
/// refused, whatever follows.
pub proof fn law_frames_wait_and_refuse(bytes: Seq<u8>, limit: Option<usize>)
    ensures
        !bytes.contains(10u8) && (limit matches Some(n) ==> bytes.len() <= n) ==> frame_feed(
            Seq::empty(),
            bytes,
            limit,
        ) == (bytes, FrameStep::Partial),
        (limit matches Some(n) && bytes.len() > n && (forall|i: int|
            0 <= i <= n ==> #[trigger] bytes[i] != 10u8)) ==> frame_feed(
            Seq::empty(),
            bytes,
            limit,
        ).1 is TooLong,
{
    if !bytes.contains(10u8) && (limit matches Some(n) ==> bytes.len() <= n) {
        lemma_frame_grows(Seq::empty(), bytes, limit);
        assert(Seq::<u8>::empty() + bytes =~= bytes);
    }
    if let Some(n) = limit {
        if bytes.len() > n && (forall|i: int| 0 <= i <= n ==> #[trigger] bytes[i] != 10u8) {
            lemma_frame_overflows(Seq::empty(), bytes, n);
        }
    }
}

/// A line is accepted with up to a mebibyte before its line feed. One without its line feed is an
/// error of the protocol, but where nothing came the connection is lost.
pub proof fn law_lines_are_ended_and_bounded(message: Seq<u8>)
    ensures
        line_error(message.push(10u8)) is None <==> message.len() <= 1048576,
        message.len() > 1048576 ==> line_error(message.push(10u8))->Some_0.class
            == ErrorClass::Protocol,
        message.len() == 0 ==> line_error(message) is Some && line_error(message)->Some_0.class
            == ErrorClass::ConnectionClosed,
        message.len() > 0 && message.last() != 10u8 ==> line_error(message) is Some && line_error(
            message,
        )->Some_0.class == ErrorClass::Protocol,
        message.push(10u8).drop_last() == message,
{
    assert(message.push(10u8).drop_last() =~= message);
}

/// A pull hands out the entry that was passed on, finds the end exactly where the server said so,
/// and fails with the failure that was passed on, or because nothing was.
pub proof fn law_pulls_hand_out_what_came(item: Option<ListingItem>)
    ensures
        item matches Some(ListingItem::Entry(entry)) ==> (pull_answer(item) matches Ok(Some(given))
            && given == entry),
        pull_answer(item) matches Ok(None) <==> item matches Some(ListingItem::Done),
        item matches Some(ListingItem::Error(e)) ==> (pull_answer(item) matches Err(told) && told
            == e@),
        item is None ==> (pull_answer(item) matches Err(told) && told.class
            == ErrorClass::ConnectionClosed),
{
}

/// A path that starts at the root is asked for as it is; any other stands below the current
/// directory, one slash between them. A path that is not given is refused, and a current directory
/// that is not known matters only for a path below it.
pub proof fn law_paths_are_asked_for_from_the_root(path: Seq<char>, current: Result<Vec<u8>, IoError>)
    ensures
        path.len() == 0 ==> (absolute_answer(path, current) matches Err(e) && e.class
            == ErrorClass::InvalidPath),
        path.len() > 0 && path[0] == '/' ==> (absolute_answer(path, current) matches Ok(asked)
            && asked == path),
        path.len() > 0 && path[0] != '/' ==> match current {
            Err(e) => absolute_answer(path, current) matches Err(told) && told.class
                == ErrorClass::Io && ends_in(told.message, e.message@),
            Ok(base) => valid_utf8(base@) ==> (absolute_answer(path, current) matches Ok(asked) && {
                let bytes = encode_utf8(asked);
                let tail = encode_utf8(path);
                &&& bytes.len() >= base@.len() + tail.len()
                &&& bytes.take(base@.len() as int) == base@
                &&& bytes.skip(bytes.len() - tail.len()) == tail
                &&& base@.len() > 0 ==> bytes[bytes.len() - tail.len() - 1] == 47u8
                &&& bytes.len() <= base@.len() + tail.len() + 1
            }),
        },
{
    if path.len() > 0 && path[0] != '/' {
        match current {
            Err(e) => {
                lemma_ends_in("cannot read current directory: "@, e.message@);
            },
            Ok(base) => {
                let tail = encode_utf8(path);
                let bytes = joined_bytes(base@, tail);
                if valid_utf8(base@) {
                    vstd::utf8::encode_utf8_valid_utf8(path);
                    let slash = seq![47u8];
                    assert(47u8 & 0x80 == 0) by (bit_vector);
                    assert(slash.skip(1) =~= Seq::<u8>::empty());
                    assert(valid_utf8(slash.skip(1)));
                    assert(valid_utf8(slash));
                    vstd::utf8::valid_utf8_concat(base@, slash);
                    vstd::utf8::valid_utf8_concat(base@ + slash, tail);
                    vstd::utf8::valid_utf8_concat(base@, tail);
                    vstd::utf8::decode_utf8_encode_utf8(bytes);
                }
                assert(bytes.take(base@.len() as int) =~= base@);
                assert(bytes.skip(bytes.len() - tail.len()) =~= tail);
            },
        }
    }
}

/// Each request over a control stream is answered by its own kind of message: a greeting by the
/// version spoken here, and nothing else will do.
pub proof fn law_control_answers_fit_the_request(request: ControlRequest, response: ServerMessage)
    ensures
        accepts(request, response) <==> match response {
            ServerMessage::HelloOk { version } => request is Hello && version == 1,
            ServerMessage::HeartbeatOk => request is Heartbeat,
            ServerMessage::ShutdownOk => request is Shutdown,
            _ => false,
        },
{
}

/// Whether a control stream is opened through `phases`, from one to the next by each of `events`.
pub open spec fn control_goes(phases: Seq<ControlPhase>, events: Seq<ControlEvent>) -> bool {
    &&& phases.len() == events.len() + 1
    &&& forall|k: int|
        0 <= k < events.len() ==> control_next(phases[k], #[trigger] events[k], phases[k + 1])
}

/// A control stream is open once the token was presented, the greeting answered with the version
/// spoken here and the heartbeat answered; any other answer, and any failure, fails it.
pub proof fn law_control_streams_open(
    phases: Seq<ControlPhase>,
    events: Seq<ControlEvent>,
    first: ServerMessage,
    second: ServerMessage,
)
    requires
        control_goes(phases, events),
        phases[0] is Authenticate,
        events.len() == 3,
        events[0] matches ControlEvent::Sent(Ok(_)),
        events[1] == ControlEvent::Answered(Ok(first)),
        events[2] == ControlEvent::Answered(Ok(second)),
    ensures
        phases[3] is Ready <==> (first matches ServerMessage::HelloOk { version } && version == 1)
            && second is HeartbeatOk,
        phases[3] is Ready || phases[3] is Failed,
{
    assert(control_next(phases[0], events[0], phases[1]));
    assert(control_next(phases[1], events[1], phases[2]));
    assert(control_next(phases[2], events[2], phases[3]));
}

/// A control stream that cannot be opened keeps the failure that came, and the words of a server
/// that refuses.
pub proof fn law_control_failures_are_told(
    phase: ControlPhase,
    event: ControlEvent,
    after: ControlPhase,
)
    requires
        control_next(phase, event, after),
        after is Failed,
        !(phase is Failed),
    ensures
        event matches ControlEvent::Sent(result) ==> result == Err::<(), IoError>(after->Failed_0),
        event matches ControlEvent::Answered(Err(e)) ==> after->Failed_0 == e,
        event matches ControlEvent::Answered(Ok(ServerMessage::Error { code, message })) ==> ends_in(
            after->Failed_0@.message,
            message@,
        ) && after->Failed_0@.kind == IoErrorKind::Other,
        event matches ControlEvent::Answered(Ok(response)) && !(response is Error)
            ==> after->Failed_0@.kind == IoErrorKind::InvalidData,
{
    if let ControlEvent::Answered(Ok(ServerMessage::Error { code, message })) = event {
        if let ControlPhase::Exchange(request) = phase {
            let head = "server rejected "@ + request_text(request) + " ("@
                + code_text(code) + "): "@;
            lemma_ends_in(head, message@);
        }
    }
}

/// A shutdown over the control stream succeeds exactly where the server confirms it, and whatever
/// the server answered, the process is stopped next.
pub proof fn law_shutdowns_succeed_when_confirmed(
    first: ShutdownPhase,
    answer: Result<ServerMessage, IoError>,
    second: ShutdownPhase,
    third: ShutdownPhase,
)
    requires
        first is Ask,
        shutdown_next(first, ShutdownEvent::Answered(answer), second),
        shutdown_next(second, ShutdownEvent::Stopped, third),
    ensures
        second is Stop,
        third matches ShutdownPhase::Done(result) && (result is Ok <==> (answer matches Ok(response)
            && response is ShutdownOk)),
        answer matches Err(e) ==> third == ShutdownPhase::Done(Err(e)),
{
}

/// An error is shown by the name of its class and then its own words.
pub proof fn law_errors_show_their_words(e: ErrorView)
    ensures
        ends_in(error_text(e), e.message),
        error_text(e).len() > e.message.len(),
{
    let head = error_heading(e.class);
    lemma_ends_in(head, e.message);
    reveal_strlit("operation is not implemented: ");
    reveal_strlit("invalid path: ");
    reveal_strlit("failed to start server: ");
    reveal_strlit("server process exited: ");
    reveal_strlit("connection closed: ");
    reveal_strlit("protocol error: ");
    reveal_strlit("filesystem I/O error: ");
}

/// A connection is greeted in the version spoken here and in the role that it is opened for.
pub proof fn law_greetings_name_version_and_role(
    control: ClientMessage,
    operation: ClientMessage,
    stream: ClientMessage,
    token: &str,
    presented: ClientMessage,
)
    requires
        call_ensures(control_hello, (), control),
        call_ensures(operation_hello, (), operation),
        call_ensures(control_message, (ControlRequest::Hello,), stream),
        call_ensures(authenticate_stream, (token,), presented),
    ensures
        control matches ClientMessage::Hello { version, role: Some(role) } && version == 1
            && role is Control,
        operation matches ClientMessage::Hello { version, role: Some(role) } && version == 1
            && role is Operation,
        stream matches ClientMessage::Hello { version, role } && version == 1 && role is None,
        presented matches ClientMessage::Auth { token: sent } && sent@ == token@,
{
}

/// Each request over a control stream is put as its own message.
pub proof fn law_control_requests_are_put(request: ControlRequest, message: ClientMessage)
    requires
        call_ensures(control_message, (request,), message),
    ensures
        message is Hello <==> request is Hello,
        message is Heartbeat <==> request is Heartbeat,
        message is Shutdown <==> request is Shutdown,
{
}

/// An error keeps its class and its words, whatever it is about.
pub proof fn law_errors_keep_their_class(words: String)
    ensures
        (FilePeekerError::NotImplemented { operation: words })@.class is NotImplemented,
        (FilePeekerError::InvalidPath { message: words })@.class is InvalidPath,
        (FilePeekerError::ServerStart { message: words })@.class is ServerStart,
        (FilePeekerError::ServerExited { message: words })@.class is ServerExited,
        (FilePeekerError::ConnectionClosed { message: words })@.class is ConnectionClosed,
        (FilePeekerError::Protocol { message: words })@.class is Protocol,
        (FilePeekerError::Io { message: words })@.class is Io,
        forall|e: FilePeekerError|
            (e matches FilePeekerError::Io { message } ==> (#[trigger] e@).message == message@) && (
            e matches FilePeekerError::Protocol { message } ==> e@.message == message@) && (
            e matches FilePeekerError::ConnectionClosed { message } ==> e@.message == message@) && (
            e matches FilePeekerError::ServerExited { message } ==> e@.message == message@) && (
            e matches FilePeekerError::ServerStart { message } ==> e@.message == message@) && (
            e matches FilePeekerError::InvalidPath { message } ==> e@.message == message@) && (
            e matches FilePeekerError::NotImplemented { operation } ==> e@.message == operation@),
{
}

/// What a line of a server's answer decodes to is taken as it is, and words about why it does not decode
/// are told as an error of the protocol.
pub proof fn law_decoded_messages_are_taken(
    result: Result<ServerMessage, String>,
    taken: Result<ServerMessage, FilePeekerError>,
)
    requires
        call_ensures(decoded, (result,), taken),
    ensures
        taken is Ok <==> result is Ok,
        result matches Ok(message) ==> taken->Ok_0 == message,
        result matches Err(words) ==> taken->Err_0@.class == ErrorClass::Protocol && ends_in(
            taken->Err_0@.message,
            words@,
        ),
{
    if let Err(words) = result {
        lemma_ends_in("server returned invalid JSON: "@, words@);
    }
}

/// The root that a server answers with is taken as it is; a refusal is told in the server's words, and any
/// other answer is an error of the protocol.
pub proof fn law_answered_roots_are_taken(
    response: ServerMessage,
    root: Result<String, FilePeekerError>,
)
    requires
        call_ensures(current_root, (response,), root),
    ensures
        root is Ok <==> response is CurrentRoot,
        response matches ServerMessage::CurrentRoot { path } ==> root->Ok_0 == path,
        response matches ServerMessage::Error { code, message } ==> root->Err_0@.message == message@,
        !(response is CurrentRoot) && !(response is Error) ==> root->Err_0@.class
            == ErrorClass::Protocol,
{
}

} // verus!
