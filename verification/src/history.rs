//! The conversation history: the questions asked and the answers received,
//! kept per terminal session.
use vstd::prelude::*;
use crate::text::push_char;

verus! {

/// One question and the answer it received.
pub struct QA {
    pub qustion: String,
    pub anwser: String,
}

impl Clone for QA {
    fn clone(&self) -> (r: Self)
        ensures
            r == *self,
    {
        QA { qustion: self.qustion.clone(), anwser: self.anwser.clone() }
    }
}

impl Default for QA {
    fn default() -> (r: Self)
        ensures
            r.qustion@ == Seq::<char>::empty(),
            r.anwser@ == Seq::<char>::empty(),
    {
        QA { qustion: String::new(), anwser: String::new() }
    }
}

/// The stored history of one session: the session's parent process and the
/// exchanges so far, the oldest first.
pub struct QaRecord {
    pub ppid: String,
    pub qa: Vec<QA>,
}

/// The latest `memory` entries of `s` (all of them when there are fewer),
/// in their order.
pub open spec fn recent_of(s: Seq<QA>, memory: nat) -> Seq<QA> {
    if memory >= s.len() {
        s
    } else {
        s.skip(s.len() - memory)
    }
}

/// A copy of the entries of `v` from index `start` on.
fn copy_from(v: &Vec<QA>, start: usize) -> (r: Vec<QA>)
    requires
        start <= v@.len(),
    ensures
        r@ == v@.skip(start as int),
{
    let mut r: Vec<QA> = Vec::new();
    let n = v.len();
    let mut i = start;
    while i < n
        invariant
            n == v@.len(),
            start <= i <= n,
            r@ == v@.subrange(start as int, i as int),
        decreases n - i,
    {
        r.push(v[i].clone());
        i += 1;
        assert(r@ =~= v@.subrange(start as int, i as int));
    }
    assert(v@.subrange(start as int, n as int) =~= v@.skip(start as int));
    r
}

impl QaRecord {
    /// A record of `ppid` with no exchanges.
    pub fn empty(ppid: String) -> (r: Self)
        ensures
            r.ppid == ppid,
            r.qa@ == Seq::<QA>::empty(),
    {
        QaRecord { ppid, qa: Vec::new() }
    }

    /// The latest `memory` exchanges (all of them when there are fewer),
    /// oldest first.
    pub fn recent(&self, memory: u8) -> (r: Vec<QA>)
        ensures
            r@ == recent_of(self.qa@, memory as nat),
    {
        let n = self.qa.len();
        let m = memory as usize;
        if m >= n {
            let r = copy_from(&self.qa, 0);
            assert(self.qa@.skip(0) =~= self.qa@);
            r
        } else {
            copy_from(&self.qa, n - m)
        }
    }
}

impl Clone for QaRecord {
    fn clone(&self) -> (r: Self)
        ensures
            r.ppid == self.ppid,
            r.qa@ == self.qa@,
    {
        let qa = copy_from(&self.qa, 0);
        assert(self.qa@.skip(0) =~= self.qa@);
        QaRecord { ppid: self.ppid.clone(), qa }
    }
}

/// The record a session starts from: the stored one when there is one,
/// otherwise an empty record of `ppid`.
pub open spec fn opened_record(ppid: String, stored: Option<QaRecord>) -> (String, Seq<QA>) {
    match stored {
        Some(r) => (r.ppid, r.qa@),
        None => (ppid, Seq::empty()),
    }
}

/// Opening a history keeps the whole stored record, every exchange in its
/// order and its owner; with no stored record it starts empty, owned by the
/// given process.
pub proof fn lemma_open_keeps_stored(ppid: String, rec: QaRecord)
    ensures
        opened_record(ppid, Some(rec)).0 == rec.ppid,
        opened_record(ppid, Some(rec)).1 == rec.qa@,
        opened_record(ppid, Some(rec)).1.len() == rec.qa@.len(),
        opened_record(ppid, None).0 == ppid,
        opened_record(ppid, None).1 == Seq::<QA>::empty(),
{
}

/// The history of the current session and the file that keeps it.
pub struct History {
    record: QaRecord,
    file_path: String,
}

impl History {
    /// The exchanges this session knows of, oldest first.
    pub closed spec fn entries(&self) -> Seq<QA> {
        self.record.qa@
    }

    /// The session's parent process, as recorded.
    pub closed spec fn owner(&self) -> String {
        self.record.ppid
    }

    /// The file that keeps the history.
    pub closed spec fn path(&self) -> Seq<char> {
        self.file_path@
    }

    /// The history kept in `file_path` for the session of `ppid`: the
    /// record read from that file when there is one (`stored`), otherwise
    /// an empty record of `ppid`.
    pub fn new(ppid: String, file_path: String, stored: Option<QaRecord>) -> (r: Self)
        ensures
            (r.owner(), r.entries()) == opened_record(ppid, stored),
            stored matches Some(rec) ==> r.entries() == rec.qa@ && r.owner() == rec.ppid,
            stored is None ==> r.entries() == Seq::<QA>::empty() && r.owner() == ppid,
            r.path() == file_path@,
    {
        let record = match stored {
            Some(record) => record,
            None => QaRecord::empty(ppid),
        };
        History { record, file_path }
    }

    /// The file that keeps the history.
    pub fn file_path(&self) -> (r: &String)
        ensures
            r@ == self.path(),
    {
        &self.file_path
    }

    /// The history to send along with a question: the latest `memory`
    /// exchanges of the stored record, oldest first; nothing when no record
    /// could be read.
    pub fn read_history_content(stored: Option<QaRecord>, memory: u8) -> (r: Option<Vec<QA>>)
        ensures
            stored is None ==> r is None,
            stored matches Some(rec) ==> (r matches Some(v) && v@ == recent_of(rec.qa@, memory as nat)),
    {
        match stored {
            Some(record) => Some(record.recent(memory)),
            None => None,
        }
    }

    /// Adds an exchange to the session's history and gives back the record
    /// to store: the record read from the file (`stored`) with the exchange
    /// added, or, when none could be read, the session's own record.
    pub fn write_to_history_content(&mut self, qa: QA, stored: Option<QaRecord>) -> (r: QaRecord)
        ensures
            final(self).entries() == old(self).entries().push(qa),
            final(self).owner() == old(self).owner(),
            final(self).path() == old(self).path(),
            stored matches Some(s) ==> r.ppid == s.ppid && r.qa@ == s.qa@.push(qa),
            stored is None ==> r.ppid == old(self).owner() && r.qa@ == old(self).entries().push(qa),
    {
        self.record.qa.push(qa.clone());
        match stored {
            Some(json_data) => {
                let mut json_data = json_data;
                json_data.qa.push(qa);
                json_data
            },
            None => self.record.clone(),
        }
    }

    /// The name of the file that keeps the history of the session of `ppid`.
    pub fn file_name(ppid: &String) -> (r: String)
        ensures
            r@ == ppid@ + seq!['.', 'j', 's', 'o', 'n'],
    {
        let r = ppid.clone();
        proof {
            reveal_strlit(".json");
        }
        r.concat(".json")
    }

    /// The parent process of this process, written in decimal: sessions of
    /// one terminal share it.
    pub fn get_ppid() -> (r: String)
        ensures
            exists|pid: i32| r@ == int_text(pid as int),
    {
        pid_text(parent_pid())
    }
}

/// Reading the latest `memory` exchanges after an exchange was added: when
/// `memory` is at least one, the exchange just added comes last, after the
/// latest `memory - 1` exchanges that were there before.
pub proof fn lemma_read_after_write(before: Seq<QA>, qa: QA, memory: nat)
    requires
        memory >= 1,
    ensures
        recent_of(before.push(qa), memory) == recent_of(before, (memory - 1) as nat).push(qa),
        recent_of(before.push(qa), memory).last() == qa,
        recent_of(before.push(qa), memory).len() <= memory,
{
    let after = before.push(qa);
    if memory >= after.len() {
    } else {
        assert(after.skip(after.len() - memory) =~= before.skip(before.len() - (memory - 1)).push(
            qa,
        ));
    }
}

/// The latest `memory` exchanges are `memory` of them, or all when there
/// are fewer, and they are the end of the history, in its order.
pub proof fn lemma_recent_is_latest(s: Seq<QA>, memory: nat)
    ensures
        recent_of(s, memory).len() == if memory < s.len() {
            memory
        } else {
            s.len()
        },
        forall|i: int|
            0 <= i < recent_of(s, memory).len() ==> #[trigger] recent_of(s, memory)[i] == s[s.len()
                - recent_of(s, memory).len() + i],
{
}

/// `nix::unistd::getppid`: the ID of this process's parent, as the raw
/// number. It depends on the running process, so nothing is stated of it.
#[verifier::external_body]
fn parent_pid() -> i32 {
    nix::unistd::getppid().as_raw()
}

/// The decimal digits, by value.
pub open spec fn digit_chars() -> Seq<char> {
    seq!['0', '1', '2', '3', '4', '5', '6', '7', '8', '9']
}

/// The decimal writing of `n`, without leading zeros.
pub open spec fn decimal(n: nat) -> Seq<char>
    decreases n,
{
    if n < 10 {
        seq![digit_chars()[n as int]]
    } else {
        decimal(n / 10).push(digit_chars()[(n % 10) as int])
    }
}

/// The decimal writing of `n`, with a minus sign when it is negative.
pub open spec fn int_text(n: int) -> Seq<char> {
    if n < 0 {
        seq!['-'] + decimal((-n) as nat)
    } else {
        decimal(n as nat)
    }
}

fn digit(d: u64) -> (c: char)
    requires
        d < 10,
    ensures
        c == digit_chars()[d as int],
{
    if d == 0 {
        '0'
    } else if d == 1 {
        '1'
    } else if d == 2 {
        '2'
    } else if d == 3 {
        '3'
    } else if d == 4 {
        '4'
    } else if d == 5 {
        '5'
    } else if d == 6 {
        '6'
    } else if d == 7 {
        '7'
    } else if d == 8 {
        '8'
    } else {
        '9'
    }
}

fn push_decimal(s: &mut String, n: u64)
    ensures
        final(s)@ == old(s)@ + decimal(n as nat),
    decreases n,
{
    if n >= 10 {
        push_decimal(s, n / 10);
    }
    push_char(s, digit(n % 10));
    assert(decimal(n as nat) == if n < 10 {
        seq![digit_chars()[n as int]]
    } else {
        decimal((n / 10) as nat).push(digit_chars()[(n % 10) as int])
    });
}

/// A process ID written in decimal, with a minus sign when negative.
pub fn pid_text(pid: i32) -> (r: String)
    ensures
        r@ == int_text(pid as int),
{
    let mut r = String::new();
    if pid < 0 {
        push_char(&mut r, '-');
        let wide: i64 = pid as i64;
        let magnitude: u64 = (0 - wide) as u64;
        push_decimal(&mut r, magnitude);
    } else {
        push_decimal(&mut r, pid as u64);
    }
    r
}

} // verus!
