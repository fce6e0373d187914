use vstd::prelude::*;

use vstd::string::StringExecFns;
use vstd::utf8::{decode_utf8, valid_utf8};

use crate::clock::{now_line, now_stamp};
use crate::codec::decode_text;
use crate::errors::LogError;
use crate::mode::TimestampMode;
use crate::text::{
    concat_entries, lemma_concat_entries_take_step, merged_content, plain_line, single_line,
    stamped_line,
};

verus! {

/// A buffered logger bound to one remote object. Lines accumulate in memory
/// through `log`; a flush is the pair `prepare_flush` (decode the remote
/// bytes and merge the buffer into them) and `mark_flushed` (empty the
/// buffer once the merged content has been written back durably). The store
/// calls themselves, and the optional local mirror file, are the host
/// program's side of that exchange.
pub struct Logger {
    log_name: String,
    logs: Vec<String>,
    timestamp_mode: TimestampMode,
    local_copy: bool,
}

/// The construction decision against the remote store: an object that is
/// already there is left untouched; a missing one is created with empty
/// content before the logger is first flushed.
pub fn creation_content(object_exists: bool) -> (r: Option<Vec<u8>>)
    ensures
        object_exists ==> r is None,
        !object_exists ==> (r matches Some(c) && c@ == Seq::<u8>::empty()),
{
    if object_exists {
        None
    } else {
        Some(Vec::new())
    }
}

impl Logger {
    /// The name of the remote object this logger writes to.
    pub closed spec fn name(&self) -> Seq<char> {
        self.log_name@
    }

    /// The buffered entries, in call order, each with its trailing newline.
    pub closed spec fn entries(&self) -> Seq<Seq<char>> {
        self.logs@.map_values(|s: String| s@)
    }

    /// The current timestamp policy.
    pub closed spec fn mode(&self) -> TimestampMode {
        self.timestamp_mode
    }

    /// Whether a successful flush is also appended to a local file.
    pub closed spec fn mirror(&self) -> bool {
        self.local_copy
    }

    /// A fresh logger: empty buffer, no timestamps, no local mirror.
    pub fn new(log_name: String) -> (r: Logger)
        ensures
            r.name() == log_name@,
            r.entries() == Seq::<Seq<char>>::empty(),
            r.mode() == TimestampMode::Plain,
            !r.mirror(),
    {
        let r = Logger {
            log_name,
            logs: Vec::new(),
            timestamp_mode: TimestampMode::Plain,
            local_copy: false,
        };
        proof {
            assert(r.entries() =~= Seq::<Seq<char>>::empty());
        }
        r
    }

    /// Choose the timestamp policy. Only future `log` and flush calls are
    /// affected; what is already buffered keeps its shape.
    pub fn set_timestamp_mode(&mut self, timestamp_mode: TimestampMode)
        ensures
            final(self).mode() == timestamp_mode,
            final(self).name() == old(self).name(),
            final(self).entries() == old(self).entries(),
            final(self).mirror() == old(self).mirror(),
    {
        self.timestamp_mode = timestamp_mode;
    }

    /// Choose whether each successful flush is also appended to a local file
    /// named after the remote object.
    pub fn save_local_copy(&mut self, local_copy: bool)
        ensures
            final(self).mirror() == local_copy,
            final(self).name() == old(self).name(),
            final(self).entries() == old(self).entries(),
            final(self).mode() == old(self).mode(),
    {
        self.local_copy = local_copy;
    }

    /// Append one message to the buffer; no remote work is done. Under `Log`
    /// the entry is stamped now, so the stamp records the call time, not the
    /// later flush time; under any other mode the message is kept as given.
    /// A trailing newline is added either way.
    pub fn log(&mut self, message: &str)
        ensures
            final(self).name() == old(self).name(),
            final(self).mode() == old(self).mode(),
            final(self).mirror() == old(self).mirror(),
            old(self).mode() is Log ==> exists|stamp: Seq<char>|
                single_line(stamp) && final(self).entries() == old(self).entries().push(
                    stamped_line(stamp, message@),
                ),
            !(old(self).mode() is Log) ==> final(self).entries() == old(self).entries().push(
                plain_line(message@),
            ),
    {
        let ghost mut stamp: Seq<char> = Seq::empty();
        let mut line: String;
        if self.timestamp_mode == TimestampMode::Log {
            line = now_line();
            proof {
                stamp = line@;
            }
            line.append(": ");
            line.append(message);
            line.append("\n");
        } else {
            line = message.to_owned();
            line.append("\n");
        }
        let ghost entry: Seq<char> = line@;
        self.logs.push(line);
        proof {
            assert(self.entries() =~= old(self).entries().push(entry));
            if old(self).mode() is Log {
                assert(entry == stamped_line(stamp, message@));
                assert(exists|s2: Seq<char>|
                    single_line(s2) && self.entries() == old(self).entries().push(
                        stamped_line(s2, message@),
                    ));
            } else {
                assert(entry == plain_line(message@));
            }
        }
    }

    /// The compute half of a flush: decode the remote object's current bytes
    /// and merge the buffered entries into them under the current policy.
    /// Invalid UTF-8 is rejected, never mangled. The buffer itself is left
    /// alone — it may only be emptied, through `mark_flushed`, once the
    /// caller has written the returned content back durably.
    pub fn prepare_flush(&self, remote: Vec<u8>) -> (r: Result<String, LogError>)
        ensures
            r is Ok <==> valid_utf8(remote@),
            r matches Err(e) ==> e == LogError::Decoding,
            r matches Ok(c) ==> exists|stamp: Seq<char>|
                single_line(stamp) && c@ == merged_content(
                    self.mode(),
                    decode_utf8(remote@),
                    stamp,
                    self.entries(),
                ),
            r matches Ok(c) ==> !(self.mode() is Flush) ==> c@ == decode_utf8(remote@)
                + concat_entries(self.entries()),
    {
        let mut content: String;
        match decode_text(remote) {
            Some(d) => {
                content = d;
            },
            None => {
                return Err(LogError::Decoding);
            },
        }
        let ghost mut stamp: Seq<char> = Seq::empty();
        if self.timestamp_mode == TimestampMode::Flush {
            let s = now_stamp();
            proof {
                stamp = s@;
            }
            content = s;
            content.append("\n");
        }
        let ghost head: Seq<char> = content@;
        proof {
            assert(head + concat_entries(self.entries().take(0)) =~= head);
        }
        let n: usize = self.logs.len();
        let mut i: usize = 0;
        while i < n
            invariant
                i <= n,
                n == self.logs.len(),
                content@ == head + concat_entries(self.entries().take(i as int)),
            decreases n - i,
        {
            proof {
                lemma_concat_entries_take_step(self.entries(), i as int);
                assert((head + concat_entries(self.entries().take(i as int)))
                    + self.entries()[i as int] =~= head + concat_entries(
                    self.entries().take(i as int + 1),
                ));
            }
            content.append(self.logs[i].as_str());
            i = i + 1;
        }
        proof {
            assert(self.entries().take(n as int) =~= self.entries());
            assert(single_line(stamp));
            assert(content@ == merged_content(
                self.mode(),
                decode_utf8(remote@),
                stamp,
                self.entries(),
            ));
            assert(exists|s2: Seq<char>|
                single_line(s2) && content@ == merged_content(
                    self.mode(),
                    decode_utf8(remote@),
                    s2,
                    self.entries(),
                ));
        }
        Ok(content)
    }

    /// The caller reports that the merged content reached the remote store:
    /// the buffer is emptied, so no line is ever flushed twice. After a
    /// failed write this must not be called, and the buffer then still holds
    /// every unflushed line for the next attempt.
    pub fn mark_flushed(&mut self)
        ensures
            final(self).entries() == Seq::<Seq<char>>::empty(),
            final(self).name() == old(self).name(),
            final(self).mode() == old(self).mode(),
            final(self).mirror() == old(self).mirror(),
    {
        self.logs.clear();
        proof {
            assert(self.entries() =~= Seq::<Seq<char>>::empty());
        }
    }

    /// The object name, as the host program needs it for the store calls and
    /// for the mirror file.
    pub fn log_name(&self) -> (r: &String)
        ensures
            r@ == self.name(),
    {
        &self.log_name
    }

    /// How many lines are buffered and not yet flushed.
    pub fn pending_len(&self) -> (r: usize)
        ensures
            r == self.entries().len(),
    {
        self.logs.len()
    }

    /// One buffered line, exactly as it will be flushed.
    pub fn pending_line(&self, i: usize) -> (r: &String)
        requires
            i < self.entries().len(),
        ensures
            r@ == self.entries()[i as int],
    {
        &self.logs[i]
    }

    /// The current timestamp policy.
    pub fn timestamp_mode(&self) -> (r: TimestampMode)
        ensures
            r == self.mode(),
    {
        self.timestamp_mode
    }

    /// Whether successful flushes are mirrored to a local file.
    pub fn local_copy(&self) -> (r: bool)
        ensures
            r == self.mirror(),
    {
        self.local_copy
    }
}

} // verus!
