//! Reading a firmware image out of the ECU with ReadMemoryByAddress.
use vstd::prelude::*;
use crate::authenticator::MazdaAuthenticator;
use crate::error::Error;
use crate::transport::append_bytes;
use crate::uds::{request_read_memory_address, UdsInterface};

verus! {

/// The largest block that one request moves: 0xFFE bytes.
pub const MAX_BLOCK: usize = 0xFFE;

/// Receives progress as `done` out of `total` bytes.
pub trait ProgressObserver {
    fn progress(&mut self, done: u64, total: u64)
        requires
            0 < total,
            done <= total,
    ;
}

/// An observer that ignores progress.
pub struct NoProgress {}

impl ProgressObserver for NoProgress {
    fn progress(&mut self, done: u64, total: u64) {
    }
}

/// Hands progress to an observer; every report is larger than the one before.
pub struct Progress<P: ProgressObserver> {
    observer: P,
    reported: u64,
}

impl<P: ProgressObserver> Progress<P> {
    /// Nothing reported yet.
    pub fn new(observer: P) -> (r: Progress<P>)
        ensures
            r.reported() == 0,
    {
        Progress { observer, reported: 0 }
    }

    /// The last `done` value reported, 0 before the first report.
    pub closed spec fn reported(&self) -> u64 {
        self.reported
    }

    /// The last `done` value reported, 0 before the first report.
    pub fn last_reported(&self) -> (r: u64)
        ensures
            r == self.reported(),
    {
        self.reported
    }

    /// The observer that receives the reports.
    pub fn observer(&self) -> &P {
        &self.observer
    }

    /// Reports `done` out of `total`; it must exceed the last report.
    pub fn report(&mut self, done: u64, total: u64)
        requires
            old(self).reported() < done <= total,
        ensures
            final(self).reported() == done,
    {
        self.observer.progress(done, total);
        self.reported = done;
    }
}

/// The bytes of a completed download.
pub struct DownloadResponse {
    pub data: Vec<u8>,
}

/// The size of the next block to move when `remaining` bytes are left.
pub open spec fn block_len(remaining: nat) -> nat {
    if remaining < MAX_BLOCK { remaining } else { MAX_BLOCK as nat }
}

/// The size of the next block to move when `remaining` bytes are left.
pub fn next_block_len(remaining: usize) -> (r: usize)
    ensures
        r == block_len(remaining as nat),
{
    if remaining < MAX_BLOCK {
        remaining
    } else {
        MAX_BLOCK
    }
}

/// The memory read that follows once `offset` of `total` bytes are in:
/// from address `offset`, the next block.
pub fn next_read(offset: usize, total: usize) -> (r: (u32, u16))
    requires
        offset < total <= u32::MAX,
    ensures
        r.0 == offset,
        r.1 == block_len((total - offset) as nat),
{
    (offset as u32, next_block_len(total - offset) as u16)
}

/// How many bytes of the ECU's answer to a read of `requested` bytes are
/// taken: all of them, unless the answer is empty or too long.
pub fn take_block(requested: usize, section: &[u8]) -> (r: Result<usize, Error>)
    ensures
        section@.len() == 0 ==> r == Err::<usize, Error>(Error::EmptyPacket),
        section@.len() > requested ==> r == Err::<usize, Error>(Error::InvalidPacket),
        0 < section@.len() <= requested ==> r == Ok::<usize, Error>(section@.len() as usize),
{
    if section.len() == 0 {
        Err(Error::EmptyPacket)
    } else if section.len() > requested {
        Err(Error::InvalidPacket)
    } else {
        Ok(section.len())
    }
}

/// The answers joined in order.
pub open spec fn joined(answers: Seq<Seq<u8>>) -> Seq<u8>
    decreases answers.len(),
{
    if answers.len() == 0 {
        Seq::empty()
    } else {
        joined(answers.drop_last()) + answers.last()
    }
}

/// Each answer is non-empty and no longer than the block asked for, given
/// the bytes that the answers before it brought.
pub open spec fn answers_fit(total: nat, answers: Seq<Seq<u8>>) -> bool {
    forall|i: int|
        0 <= i < answers.len() ==> 0 < (#[trigger] answers[i]).len() <= block_len(
            (total - joined(answers.take(i)).len()) as nat,
        )
}

proof fn lemma_answers_extend(total: nat, answers: Seq<Seq<u8>>, a: Seq<u8>)
    requires
        answers_fit(total, answers),
        0 < a.len() <= block_len((total - joined(answers).len()) as nat),
    ensures
        answers_fit(total, answers.push(a)),
        joined(answers.push(a)) == joined(answers) + a,
{
    let next = answers.push(a);
    assert(next.drop_last() =~= answers);
    assert forall|i: int| 0 <= i < next.len() implies 0 < (#[trigger] next[i]).len() <= block_len(
        (total - joined(next.take(i)).len()) as nat,
    ) by {
        if i < answers.len() {
            assert(next.take(i) =~= answers.take(i));
        } else {
            assert(next.take(i) =~= answers);
        }
    }
}

/// Downloads with Mazda's first scheme: session 0x87, then memory reads from address 0.
pub struct Mazda1Downloader<U: UdsInterface> {
    interface: U,
    key: String,
    download_size: usize,
}

impl<U: UdsInterface> Mazda1Downloader<U> {
    pub fn new(interface: U, key: &str, download_size: usize) -> (r: Mazda1Downloader<U>)
        ensures
            r.download_size() == download_size,
            r.key()@ == key@,
    {
        Mazda1Downloader { interface, key: key.to_owned(), download_size }
    }

    /// The secret used to answer the seed.
    pub closed spec fn key(&self) -> String {
        self.key
    }

    pub closed spec fn download_size(&self) -> usize {
        self.download_size
    }

    /// Authenticates, then reads `download_size` bytes from address 0: each
    /// read asks for the next block (`next_read`) and its answer is judged
    /// by `take_block`. Progress is reported after each answer.
    pub fn download<P: ProgressObserver>(&self, callback: &mut Progress<P>) -> (r: Result<
        DownloadResponse,
        Error,
    >)
        requires
            self.download_size() <= u32::MAX,
            old(callback).reported() == 0,
        ensures
            r matches Ok(d) ==> d.data@.len() == self.download_size() && exists|answers: Seq<Seq<u8>>|
                answers_fit(self.download_size() as nat, answers) && #[trigger] joined(answers)
                    == d.data@,
            r is Ok && self.download_size() > 0 ==> final(callback).reported()
                == self.download_size(),
    {
        let auth = MazdaAuthenticator {};
        if let Err(e) = auth.authenticate(self.key.as_str(), &self.interface, 0x87) {
            return Err(e);
        }
        let total = self.download_size;
        let mut data: Vec<u8> = Vec::new();
        let ghost mut answers: Seq<Seq<u8>> = Seq::empty();
        while data.len() < total
            invariant
                total == self.download_size() <= u32::MAX,
                data@ == joined(answers),
                answers_fit(total as nat, answers),
                data@.len() <= total,
                callback.reported() == data@.len(),
            decreases total - data@.len(),
        {
            let (address, length) = next_read(data.len(), total);
            let section = match request_read_memory_address(&self.interface, address, length) {
                Ok(s) => s,
                Err(e) => return Err(e),
            };
            if let Err(e) = take_block(length as usize, section.as_slice()) {
                return Err(e);
            }
            proof {
                lemma_answers_extend(total as nat, answers, section@);
                answers = answers.push(section@);
            }
            append_bytes(&mut data, section.as_slice());
            callback.report(data.len() as u64, total as u64);
        }
        Ok(DownloadResponse { data })
    }
}

} // verus!
