//! Log lines and the append-only log.

use vstd::prelude::*;
use vstd::string::StringExecFns;
use crate::outcome::{Failure, Outcome};

verus! {

/// The one username and password pair that every attempt of a run presents.
#[derive(Clone, Debug, PartialEq, Eq)]
pub struct Credentials {
    pub username: String,
    pub password: String,
}

impl Credentials {
    pub fn new(username: String, password: String) -> (c: Credentials)
        ensures
            c.username == username,
            c.password == password,
    {
        Credentials { username, password }
    }

    /// A copy for one more task.
    pub fn duplicate(&self) -> (c: Credentials)
        ensures
            c == *self,
    {
        Credentials { username: self.username.clone(), password: self.password.clone() }
    }
}

/// What a line says of its attempt before naming it.
pub open spec fn outcome_label(outcome: Outcome) -> Seq<char> {
    match outcome {
        Outcome::Success => "ok: "@,
        Outcome::Error(Failure::Connect(detail)) => "connect err: "@ + detail@ + ": "@,
        Outcome::Error(Failure::Handshake) => "err: "@,
        Outcome::TimedOut => "timed out: "@,
    }
}

/// The log line of a settled attempt: the label of its outcome, then host,
/// username and password in plain text, separated by single spaces.
pub open spec fn attempt_line(
    outcome: Outcome,
    host: Seq<char>,
    username: Seq<char>,
    password: Seq<char>,
) -> Seq<char> {
    outcome_label(outcome) + host + " "@ + username + " "@ + password
}

/// What is written for a line: the line and a newline.
pub open spec fn framed(line: Seq<char>) -> Seq<char> {
    line + "\n"@
}

/// The label of an outcome as text.
pub fn outcome_label_text(outcome: &Outcome) -> (t: String)
    ensures
        t@ == outcome_label(*outcome),
{
    match outcome {
        Outcome::Success => String::from_str("ok: "),
        Outcome::Error(Failure::Connect(detail)) => {
            let mut t = String::from_str("connect err: ");
            t.append(detail.as_str());
            t.append(": ");
            t
        },
        Outcome::Error(Failure::Handshake) => String::from_str("err: "),
        Outcome::TimedOut => String::from_str("timed out: "),
    }
}

/// The log line of a settled attempt.
pub fn attempt_line_text(outcome: &Outcome, host: &str, credentials: &Credentials) -> (t: String)
    ensures
        t@ == attempt_line(*outcome, host@, credentials.username@, credentials.password@),
{
    let mut t = outcome_label_text(outcome);
    t.append(host);
    t.append(" ");
    t.append(credentials.username.as_str());
    t.append(" ");
    t.append(credentials.password.as_str());
    t
}

/// An ordered, append-only sequence of text lines.
#[derive(Debug)]
pub struct LogSink {
    lines: Vec<String>,
}

impl View for LogSink {
    type V = Seq<Seq<char>>;

    closed spec fn view(&self) -> Seq<Seq<char>> {
        Seq::new(self.lines@.len(), |i: int| self.lines@[i]@)
    }
}

impl LogSink {
    /// An empty log.
    pub fn new() -> (sink: LogSink)
        ensures
            sink@ == Seq::<Seq<char>>::empty(),
    {
        let sink = LogSink { lines: Vec::new() };
        assert(sink@ =~= Seq::<Seq<char>>::empty());
        sink
    }

    /// Appends one line after all earlier ones, which stay as they are, and
    /// returns what a durable destination is to be given for it.
    pub fn append(&mut self, line: &str) -> (entry: String)
        ensures
            final(self)@ == old(self)@.push(line@),
            entry@ == framed(line@),
    {
        self.lines.push(String::from_str(line));
        assert(self@ =~= old(self)@.push(line@));
        let mut entry = String::from_str(line);
        entry.append("\n");
        entry
    }

    /// Number of lines appended so far.
    pub fn len(&self) -> (n: usize)
        ensures
            n == self@.len(),
    {
        self.lines.len()
    }

    /// The line at position `i`, counted from the first one appended.
    pub fn line(&self, i: usize) -> (t: &str)
        requires
            i < self@.len(),
        ensures
            t@ == self@[i as int],
    {
        self.lines[i].as_str()
    }
}

} // verus!
