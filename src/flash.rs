//! Writing a firmware image into the ECU: erase, request download, transfer.
use vstd::prelude::*;
use crate::authenticator::MazdaAuthenticator;
use crate::download::{joined, Progress, ProgressObserver, MAX_BLOCK};
use crate::error::Error;
use crate::isotp::slice_subrange;
use crate::transport::append_bytes;
use crate::uds::{be_u32, write_be_u32, UdsInterface, UDS_REQ_REQUESTDOWNLOAD, UDS_REQ_TRANSFERDATA};

verus! {

/// Mazda's erase service.
pub const MAZDA_REQ_ERASE: u8 = 0xB1;

/// What to write and where.
pub struct FlashData<'a> {
    pub offset: usize,
    pub data: &'a [u8],
}

impl<'a> FlashData<'a> {
    pub fn new(offset: usize, data: &'a [u8]) -> (r: FlashData<'a>)
        ensures
            r.offset == offset,
            r.data@ == data@,
    {
        FlashData { offset, data }
    }
}

/// Body of Mazda's RequestDownload: the target offset and the length, each
/// as four big-endian bytes.
pub fn request_download_body(offset: u32, length: u32) -> (r: Vec<u8>)
    ensures
        r@ == be_u32(offset) + be_u32(length),
{
    let mut v = Vec::new();
    append_bytes(&mut v, &write_be_u32(offset));
    append_bytes(&mut v, &write_be_u32(length));
    v
}

/// Flashes with Mazda's first scheme: session 0x85, erase, then transfer.
pub struct Mazda1Flasher<U: UdsInterface> {
    interface: U,
    key: String,
}

impl<U: UdsInterface> Mazda1Flasher<U> {
    pub fn new(interface: U, key: &str) -> (r: Mazda1Flasher<U>)
        ensures
            r.key()@ == key@,
    {
        Mazda1Flasher { interface, key: key.to_owned() }
    }

    /// The secret used to answer the seed.
    pub closed spec fn key(&self) -> String {
        self.key
    }

    /// Erases the flash. It must be erased before it is written.
    fn erase(&self) -> Result<(), Error> {
        let body = [0x00u8, 0xB2, 0x00];
        match self.interface.request(MAZDA_REQ_ERASE, &body) {
            Ok(_) => Ok(()),
            Err(e) => Err(e),
        }
    }

    /// Authenticates (session 0x85), erases, requests the download of
    /// `data.data` to `data.offset`, then sends the blocks of
    /// `transfer_plan(data.data@)` in order with TransferData, reporting the
    /// bytes sent after each block.
    pub fn flash<P: ProgressObserver>(&self, data: &FlashData, callback: &mut Progress<P>) -> (r:
        Result<(), Error>)
        requires
            data.offset <= u32::MAX,
            data.data@.len() <= u32::MAX,
            old(callback).reported() == 0,
        ensures
            r is Ok && data.data@.len() > 0 ==> final(callback).reported() == data.data@.len(),
    {
        let auth = MazdaAuthenticator {};
        if let Err(e) = auth.authenticate(self.key.as_str(), &self.interface, 0x85) {
            return Err(e);
        }
        if let Err(e) = self.erase() {
            return Err(e);
        }
        let total = data.data.len();
        let msg = request_download_body(data.offset as u32, total as u32);
        if let Err(e) = self.interface.request(UDS_REQ_REQUESTDOWNLOAD, msg.as_slice()) {
            return Err(e);
        }
        let count = transfer_count(total);
        let mut k: usize = 0;
        while k < count
            invariant
                total == data.data@.len() <= u32::MAX,
                count == transfer_count_spec(total as nat),
                k <= count,
                callback.reported() == block_end(total as nat, k as nat),
            decreases count - k,
        {
            proof {
                lemma_block_end_grows(total as nat, k as nat);
            }
            let chunk = transfer_block(data.data, k);
            if let Err(e) = self.interface.request(UDS_REQ_TRANSFERDATA, chunk) {
                return Err(e);
            }
            let sent = block_end_at(total, k + 1);
            callback.report(sent as u64, total as u64);
            k = k + 1;
        }
        proof {
            if total > 0 {
                lemma_count_covers(total as nat);
            }
        }
        Ok(())
    }
}

/// Number of TransferData requests for `n` bytes: `n / 0xFFE` rounded up.
pub open spec fn transfer_count_spec(n: nat) -> nat {
    (n + MAX_BLOCK - 1) as nat / MAX_BLOCK as nat
}

/// Bytes covered by the first `k` blocks of an `n`-byte image.
pub open spec fn block_end(n: nat, k: nat) -> nat {
    if k * MAX_BLOCK < n { (k * MAX_BLOCK) as nat } else { n }
}

/// The `k`-th TransferData block of `data`: the half-open range
/// `[k * 0xFFE, min((k + 1) * 0xFFE, len))`.
pub open spec fn transfer_block_spec(data: Seq<u8>, k: nat) -> Seq<u8> {
    data.subrange(block_end(data.len(), k) as int, block_end(data.len(), k + 1) as int)
}

/// Every TransferData block of `data`, in sending order.
pub open spec fn transfer_plan(data: Seq<u8>) -> Seq<Seq<u8>> {
    Seq::new(transfer_count_spec(data.len()), |k: int| transfer_block_spec(data, k as nat))
}

proof fn lemma_block_end_grows(n: nat, k: nat)
    requires
        k < transfer_count_spec(n),
    ensures
        block_end(n, k) < block_end(n, k + 1),
        block_end(n, k) == k * MAX_BLOCK,
{
    assert(k * MAX_BLOCK < n) by (nonlinear_arith)
        requires k < (n + MAX_BLOCK - 1) as nat / MAX_BLOCK as nat, MAX_BLOCK == 0xFFE;
    assert((k + 1) * MAX_BLOCK == k * MAX_BLOCK + MAX_BLOCK) by (nonlinear_arith);
}

proof fn lemma_count_covers(n: nat)
    requires
        n > 0,
    ensures
        block_end(n, transfer_count_spec(n)) == n,
{
    let c = transfer_count_spec(n);
    assert(c * MAX_BLOCK >= n) by (nonlinear_arith)
        requires c == (n + MAX_BLOCK - 1) as nat / MAX_BLOCK as nat, MAX_BLOCK == 0xFFE;
}

proof fn lemma_plan_prefix(data: Seq<u8>, k: nat)
    requires
        k <= transfer_count_spec(data.len()),
    ensures
        joined(transfer_plan(data).take(k as int)) == data.subrange(0, block_end(data.len(), k) as int),
    decreases k,
{
    let n = data.len();
    if k == 0 {
        assert(transfer_plan(data).take(0) =~= Seq::<Seq<u8>>::empty());
        assert(data.subrange(0, 0) =~= Seq::<u8>::empty());
    } else {
        lemma_plan_prefix(data, (k - 1) as nat);
        lemma_block_end_grows(n, (k - 1) as nat);
        let plan = transfer_plan(data);
        assert(plan.take(k as int).drop_last() =~= plan.take(k - 1));
        assert(plan.take(k as int).last() == transfer_block_spec(data, (k - 1) as nat));
        assert(data.subrange(0, block_end(n, (k - 1) as nat) as int) + transfer_block_spec(
            data,
            (k - 1) as nat,
        ) =~= data.subrange(0, block_end(n, k) as int));
    }
}

/// The TransferData blocks of an image, joined in order, are the image;
/// there are `len / 0xFFE` of them rounded up, none longer than 0xFFE bytes.
pub proof fn lemma_transfer_plan(data: Seq<u8>)
    ensures
        joined(transfer_plan(data)) == data,
        transfer_plan(data).len() == transfer_count_spec(data.len()),
        forall|k: int|
            0 <= k < transfer_plan(data).len() ==> (#[trigger] transfer_plan(data)[k]).len() <= MAX_BLOCK,
{
    let n = data.len();
    let c = transfer_count_spec(n);
    lemma_plan_prefix(data, c);
    assert(transfer_plan(data).take(c as int) =~= transfer_plan(data));
    if n > 0 {
        lemma_count_covers(n);
    }
    assert(data.subrange(0, n as int) =~= data);
    assert forall|k: int| 0 <= k < transfer_plan(data).len() implies (#[trigger] transfer_plan(
        data,
    )[k]).len() <= MAX_BLOCK by {
        lemma_block_end_grows(n, k as nat);
        assert(((k + 1) * MAX_BLOCK) == k * MAX_BLOCK + MAX_BLOCK) by (nonlinear_arith);
    }
}

/// Number of TransferData requests for `n` bytes.
pub fn transfer_count(n: usize) -> (r: usize)
    requires
        n <= u32::MAX,
    ensures
        r == transfer_count_spec(n as nat),
{
    ((n as u64 + 0xFFD) / 0xFFE) as usize
}

/// Bytes covered by the first `k` blocks of an `n`-byte image.
pub fn block_end_at(n: usize, k: usize) -> (r: usize)
    requires
        n <= u32::MAX,
        k <= transfer_count_spec(n as nat),
    ensures
        r == block_end(n as nat, k as nat),
{
    assert(k <= n + 1) by (nonlinear_arith)
        requires k <= (n + MAX_BLOCK - 1) as nat / MAX_BLOCK as nat, MAX_BLOCK == 0xFFE;
    assert(k * 0xFFE <= 0x1_0000_0000u64 * 0xFFE) by (nonlinear_arith)
        requires k <= n + 1, n <= u32::MAX;
    let end = k as u64 * 0xFFE;
    if end < n as u64 {
        end as usize
    } else {
        n
    }
}

/// The `k`-th TransferData block of `data`.
pub fn transfer_block(data: &[u8], k: usize) -> (r: &[u8])
    requires
        data@.len() <= u32::MAX,
        k < transfer_count_spec(data@.len()),
    ensures
        r@ == transfer_block_spec(data@, k as nat),
        r@ == transfer_plan(data@)[k as int],
{
    proof {
        lemma_block_end_grows(data@.len(), k as nat);
    }
    let n = data.len();
    let start = block_end_at(n, k);
    let end = block_end_at(n, k + 1);
    slice_subrange(data, start, end)
}

} // verus!
