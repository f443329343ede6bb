//! Bridging a browser terminal to a session: what each WebSocket message
//! and each piece of shell output leads to, and where the Spur agent of a
//! bare-metal job is reached.
use vstd::prelude::*;
use vstd::utf8::encode_utf8;
use crate::text::{
    decimal, find_char_from, first_field, lemma_field_end, texts, trim_text, trimmed, unsigned_text,
};

verus! {

/// A message from the browser's WebSocket, or the end of the socket.
pub enum WsMessage {
    Text(String),
    Binary(Vec<u8>),
    Close,
    /// Ping, pong and other control messages.
    Other,
    /// The socket failed.
    Error,
}

/// What to do with a message from the browser.
pub enum InputStep {
    /// Write these bytes to the shell's input.
    Forward(Vec<u8>),
    /// Stop reading from the browser.
    Stop,
    /// Nothing to do.
    Ignore,
}

/// Text and binary messages are forwarded as bytes (text in UTF-8); a close
/// or a failure stops the input; other messages are ignored.
pub fn input_step(msg: WsMessage) -> (step: InputStep)
    ensures
        match msg {
            WsMessage::Text(t) => step matches InputStep::Forward(b) && b@ == encode_utf8(t@),
            WsMessage::Binary(d) => step matches InputStep::Forward(b) && b@ == d@,
            WsMessage::Close | WsMessage::Error => step is Stop,
            WsMessage::Other => step is Ignore,
        },
{
    match msg {
        WsMessage::Text(t) => InputStep::Forward(t.as_str().as_bytes_vec()),
        WsMessage::Binary(d) => InputStep::Forward(d),
        WsMessage::Close => InputStep::Stop,
        WsMessage::Error => InputStep::Stop,
        WsMessage::Other => InputStep::Ignore,
    }
}

/// What to do with a piece of the shell's output.
pub enum OutputStep {
    /// Send it to the browser as text.
    Send,
    /// Nothing to send this time.
    Skip,
    /// The output is over.
    Stop,
}

/// Output read from a pod: a read of `n` bytes is sent, a read of nothing
/// means the stream ended, a failed read (`None`) stops it too.
pub fn pod_output_step(read: Option<usize>) -> (step: OutputStep)
    ensures
        match read {
            Some(n) => if n > 0 {
                step is Send
            } else {
                step is Stop
            },
            None => step is Stop,
        },
{
    match read {
        Some(n) => if n > 0 {
            OutputStep::Send
        } else {
            OutputStep::Stop
        },
        None => OutputStep::Stop,
    }
}

/// Output from a Spur agent: a chunk marked end-of-file stops the stream,
/// a chunk with data is sent, an empty one is skipped; the end of the
/// stream or a failure (`None`) stops it.
pub fn agent_output_step(chunk: Option<(bool, usize)>) -> (step: OutputStep)
    ensures
        match chunk {
            Some((eof, len)) => if eof {
                step is Stop
            } else if len > 0 {
                step is Send
            } else {
                step is Skip
            },
            None => step is Stop,
        },
{
    match chunk {
        Some((eof, len)) => if eof {
            OutputStep::Stop
        } else if len > 0 {
            OutputStep::Send
        } else {
            OutputStep::Skip
        },
        None => OutputStep::Stop,
    }
}

/// The first node of a job's node list: its first comma-separated entry,
/// without surrounding white space.
pub open spec fn first_node(nodelist: Seq<char>) -> Seq<char> {
    trimmed(first_field(nodelist, ','))
}

/// The address of the Spur agent on `node`.
pub open spec fn agent_address_of(node: Seq<char>, port: u16) -> Seq<char> {
    "http://"@ + node + ":"@ + decimal(port as int)
}

/// Message of a job Spur placed on no node.
pub const NO_NODES_MESSAGE: &'static str = "job has no allocated nodes";

/// The address of the Spur agent that runs a job placed on `nodelist`: on
/// the first node of the list, at `port`. A job on no node has none.
pub fn agent_address(nodelist: &str, port: u16) -> (r: Result<String, String>)
    ensures
        nodelist@.len() == 0 ==> (r matches Err(m) && m@ == NO_NODES_MESSAGE@),
        nodelist@.len() > 0 ==> (r matches Ok(a) && a@ == agent_address_of(first_node(nodelist@), port)),
{
    if nodelist.is_empty() {
        return Err(String::from_str(NO_NODES_MESSAGE));
    }
    let end = find_char_from(nodelist, 0, ',');
    assert(nodelist@.skip(0) =~= nodelist@);
    let head = nodelist.substring_char(0, end);
    assert(head@ =~= first_field(nodelist@, ','));
    let node = trim_text(head);
    let address = String::from_str("http://").concat(node.as_str()).concat(":").concat(
        unsigned_text(port as u64).as_str(),
    );
    Ok(address)
}

/// Input for a Spur agent's attached job.
pub struct AttachJobInput {
    pub job_id: u32,
    pub data: Vec<u8>,
}

/// Input for job `job_id` carrying `data`; the first one, with no data,
/// opens the attachment.
pub fn attach_input(job_id: u32, data: Vec<u8>) -> (i: AttachJobInput)
    ensures
        i.job_id == job_id,
        i.data@ == data@,
{
    AttachJobInput { job_id, data }
}

/// Seconds to wait for the browser to take a piece of output before the
/// terminal is given up as disconnected.
pub const OUTPUT_SEND_TIMEOUT_SECS: u64 = 5;

/// Capacity of the queue of input waiting for a Spur agent.
pub const ATTACH_QUEUE_CAPACITY: usize = 256;

/// How a shell is attached in a pod.
pub struct PodAttachSettings {
    pub command: Vec<String>,
    pub stdin: bool,
    pub stdout: bool,
    pub stderr: bool,
    pub tty: bool,
    pub max_stdin_buf_size: usize,
    pub max_stdout_buf_size: usize,
    pub max_stderr_buf_size: usize,
}

/// A login shell (`bash -l`) on a terminal, with its input and output
/// attached and 1024-byte buffers. A terminal merges the error stream into
/// the output, so the error stream is not attached on its own.
pub fn pod_attach_settings() -> (s: PodAttachSettings)
    ensures
        texts(s.command@) == seq!["bash"@, "-l"@],
        s.stdin,
        s.stdout,
        s.tty,
        !s.stderr,
        s.max_stdin_buf_size == 1024,
        s.max_stdout_buf_size == 1024,
        s.max_stderr_buf_size == 1024,
{
    let mut command: Vec<String> = Vec::new();
    command.push(String::from_str("bash"));
    command.push(String::from_str("-l"));
    assert(texts(command@) =~= seq!["bash"@, "-l"@]);
    PodAttachSettings {
        command,
        stdin: true,
        stdout: true,
        stderr: false,
        tty: true,
        max_stdin_buf_size: 1024,
        max_stdout_buf_size: 1024,
        max_stderr_buf_size: 1024,
    }
}

/// The agent of a job is reached on the first node of its list: the text
/// before the first comma, without surrounding white space, or the whole
/// list, so trimmed, when it names one node.
pub proof fn law_first_node_is_before_first_comma(a: Seq<char>, b: Seq<char>)
    requires
        !a.contains(','),
    ensures
        first_node(a + seq![','] + b) == trimmed(a),
        first_node(a) == trimmed(a),
{
    let s = a + seq![','] + b;
    assert forall|j: int| 0 <= j < a.len() implies s[j] != ',' by {
        assert(s[j] == a[j]);
        if a[j] == ',' {
            assert(a.contains(','));
        }
    }
    assert(s[a.len() as int] == ',');
    lemma_field_end(s, ',', a.len() as int);
    assert(s.take(a.len() as int) =~= a);
    assert forall|j: int| 0 <= j < a.len() implies a[j] != ',' by {
        if a[j] == ',' {
            assert(a.contains(','));
        }
    }
    lemma_field_end(a, ',', a.len() as int);
    assert(a.take(a.len() as int) =~= a);
}

} // verus!
