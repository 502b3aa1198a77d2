//! The device session: identification, the command gate, the reply wait and
//! chunked bulk reads, each expressed as the transfer to issue next.
use vstd::prelude::*;
use vstd::arithmetic::power2::lemma2_to64;
use crate::device::{DeviceId, Status, find_device, has_ids, is_first_match, is_unknown};
use crate::protocol::{
    BulkIn, BulkOut, ControlIn, ControlOut, BULK_READ_ENDPOINT, BULK_WRITE_ENDPOINT,
    COMMAND_REQUEST, FACTORY_REQUEST, REPLY_REQUEST, command_request, decode_poll, is_ready,
    poll_length_of, reply_request, reply_retry_delay, retry_delay, retry_delay_u64,
};

verus! {

/// Why an operation of the session failed.
#[derive(Debug)]
pub enum NetMdError {
    /// The (vendor, product) pair is not in the allow-list.
    UnknownDevice,
    /// The USB subsystem refused the interface claim.
    ClaimFailed(String),
    /// The readiness byte of the poll answer was not zero.
    NotReady,
    /// A USB transfer failed; the text is the transport's own.
    Transport(String),
}

/// A recognised device whose interface has not been claimed yet.
pub struct Claim {
    model: DeviceId,
}

/// A connection to a NetMD device over a claimed interface.
pub struct NetMD {
    model: DeviceId,
    status: Option<Status>,
    claimed: bool,
}

/// Where a reply wait stands after a poll answer.
#[derive(Debug)]
pub enum ReplyStep {
    /// Sleep this many milliseconds, poll again and hand over the new length.
    Wait(u64),
    /// Read the reply with this control-in transfer.
    Read(ControlIn),
}

/// The wait for a reply: how many zero poll answers came so far.
pub struct ReplyWait {
    factory: bool,
    override_length: Option<i32>,
    attempt: u64,
}

/// A chunked bulk read of `total` bytes, in transfers of at most `chunk` bytes.
pub struct BulkRead {
    total: usize,
    chunk: usize,
    data: Vec<u8>,
}

/// Same identity: ids and name.
pub open spec fn same_id(a: DeviceId, b: DeviceId) -> bool {
    a.vendor_id == b.vendor_id && a.product_id == b.product_id && a.name == b.name
}

/// The length a reply is read with: the caller's override, cut to 16 bits, else the polled one.
pub open spec fn resolved_length(override_length: Option<i32>, polled: u16) -> u16 {
    match override_length {
        Some(v) => v as u16,
        None => polled,
    }
}

/// The attempt counter after one more zero answer (it stops at `u64::MAX`).
pub open spec fn next_attempt(a: u64) -> u64 {
    if a < u64::MAX { (a + 1) as u64 } else { a }
}

/// Length of the next bulk-in transfer once `done` of `total` bytes have arrived.
pub open spec fn next_chunk(total: nat, chunk: nat, done: nat) -> nat {
    if chunk <= total - done { chunk } else { (total - done) as nat }
}

/// Lengths requested, in order, for `remaining` bytes when every transfer
/// returns exactly the length it asked for.
pub open spec fn chunk_plan(remaining: nat, chunk: nat) -> Seq<nat>
    decreases remaining,
{
    if remaining == 0 || chunk == 0 {
        Seq::empty()
    } else {
        let m = next_chunk(remaining, chunk, 0);
        seq![m].add(chunk_plan((remaining - m) as nat, chunk))
    }
}

/// Sum of a sequence of lengths.
pub open spec fn sum_of(s: Seq<nat>) -> nat
    decreases s.len(),
{
    if s.len() == 0 { 0 } else { s[0] + sum_of(s.drop_first()) }
}

/// Two first matches of the same ids in one table are the same position, so
/// the entry that `identify` picks is determined by the table alone.
pub proof fn lemma_first_match_unique(table: Seq<DeviceId>, vendor_id: u16, product_id: u16, i: int, j: int)
    requires
        is_first_match(table, vendor_id, product_id, i),
        is_first_match(table, vendor_id, product_id, j),
    ensures
        i == j,
{
    if i < j {
        assert(!has_ids(table[i], vendor_id, product_id));
    } else if j < i {
        assert(!has_ids(table[j], vendor_id, product_id));
    }
}

/// A session built on the claim found for a listed pair exposes exactly the
/// vendor id, product id and name of the first table entry with those ids.
pub proof fn lemma_session_identity(
    table: Seq<DeviceId>,
    vendor_id: u16,
    product_id: u16,
    i: int,
    claim: Claim,
    s: NetMD,
)
    requires
        is_first_match(table, vendor_id, product_id, i),
        same_id(claim.spec_model(), table[i]),
        same_id(s.spec_model(), claim.spec_model()),
    ensures
        s.spec_model().vendor_id == vendor_id,
        s.spec_model().product_id == product_id,
        s.spec_model().vendor_id == table[i].vendor_id,
        s.spec_model().product_id == table[i].product_id,
        s.spec_model().name == table[i].name,
{
}

/// When every bulk-in transfer returns exactly the length it asked for, a read
/// of `remaining` bytes issues `ceil(remaining / chunk)` transfers; the one of
/// index `k` asks for `min(chunk, remaining - k * chunk)` bytes, and together
/// they deliver `remaining` bytes.
pub proof fn lemma_chunk_plan(remaining: nat, chunk: nat)
    requires
        chunk > 0,
    ensures
        chunk_plan(remaining, chunk).len() == (remaining + chunk - 1) as int / chunk as int,
        forall|k: int|
            0 <= k < chunk_plan(remaining, chunk).len() ==> #[trigger] chunk_plan(remaining, chunk)[k]
                == next_chunk(remaining, chunk, (k * chunk) as nat) && k * chunk < remaining,
        sum_of(chunk_plan(remaining, chunk)) == remaining,
    decreases remaining,
{
    let p = chunk_plan(remaining, chunk);
    if remaining == 0 {
        assert((0 + chunk - 1) / (chunk as int) == 0) by (nonlinear_arith)
            requires chunk > 0;
    } else {
        let m = next_chunk(remaining, chunk, 0);
        let rest = (remaining - m) as nat;
        lemma_chunk_plan(rest, chunk);
        let q = chunk_plan(rest, chunk);
        assert(p == seq![m].add(q));
        assert(p.drop_first() =~= q);
        if remaining <= chunk {
            assert(rest == 0);
            assert((remaining + chunk - 1) / (chunk as int) == 1) by (nonlinear_arith)
                requires 0 < remaining <= chunk;
        } else {
            assert(m == chunk);
            assert((remaining + chunk - 1) / (chunk as int) == (rest + chunk - 1) / (chunk as int) + 1)
                by (nonlinear_arith)
                requires rest == remaining - chunk, chunk > 0;
        }
        assert forall|k: int| 0 <= k < p.len() implies #[trigger] p[k]
            == next_chunk(remaining, chunk, (k * chunk) as nat) && k * chunk < remaining by {
            if k > 0 {
                assert(p[k] == q[k - 1]);
                assert((k - 1) * chunk + chunk == k * chunk) by (nonlinear_arith);
                assert(m == chunk);
            } else {
                assert(k * chunk == 0);
            }
        }
    }
}

/// A bulk reader that has received `done` of `total` bytes asks next for the
/// first length of the plan of what remains; once that many bytes arrive, what
/// remains to be asked is the rest of that plan.
pub proof fn lemma_reader_follows_plan(total: nat, chunk: nat, done: nat)
    requires
        chunk > 0,
        done < total,
    ensures
        chunk_plan((total - done) as nat, chunk).len() > 0,
        chunk_plan((total - done) as nat, chunk)[0] == next_chunk(total, chunk, done),
        chunk_plan((total - done) as nat, chunk).drop_first() == chunk_plan(
            (total - done - next_chunk(total, chunk, done)) as nat,
            chunk,
        ),
{
    let rem = (total - done) as nat;
    let m = next_chunk(rem, chunk, 0);
    assert(m == next_chunk(total, chunk, done));
    assert(chunk_plan(rem, chunk) == seq![m].add(chunk_plan((rem - m) as nat, chunk)));
    assert(chunk_plan(rem, chunk).drop_first() =~= chunk_plan((rem - m) as nat, chunk));
}

/// The reply backoff is flat zero for the first ten zero answers and ten
/// milliseconds for the next ten.
pub proof fn lemma_retry_delay_staircase(attempt: nat)
    ensures
        attempt < 10 ==> retry_delay(attempt) == 0,
        10 <= attempt < 20 ==> retry_delay(attempt) == 10,
        attempt < 20 ==> retry_delay_u64(attempt) == retry_delay(attempt),
{
    lemma2_to64();
}

fn copy_id(d: &DeviceId) -> (r: DeviceId)
    ensures
        same_id(r, *d),
{
    let name = match &d.name {
        Some(n) => Some(n.clone()),
        None => None,
    };
    DeviceId { vendor_id: d.vendor_id, product_id: d.product_id, name }
}

impl Claim {
    /// The identity of the device.
    pub closed spec fn spec_model(&self) -> DeviceId {
        self.model
    }

    /// The identity found for the device.
    pub fn model(&self) -> (r: &DeviceId)
        ensures
            r == self.spec_model(),
    {
        &self.model
    }

    /// The interface number to claim.
    pub fn interface_number(&self) -> (r: u8)
        ensures
            r == 0,
    {
        0
    }
}

impl NetMD {
    /// The identity of the device.
    pub closed spec fn spec_model(&self) -> DeviceId {
        self.model
    }

    /// The last known playback status.
    pub closed spec fn spec_status(&self) -> Option<Status> {
        self.status
    }

    /// Whether the interface claim is still held.
    pub closed spec fn spec_claimed(&self) -> bool {
        self.claimed
    }

    /// Looks the ids up in `table`; only a listed device may have its interface claimed.
    pub fn identify(table: &Vec<DeviceId>, vendor_id: u16, product_id: u16) -> (r: Result<Claim, NetMdError>)
        ensures
            is_unknown(table@, vendor_id, product_id) <==> r matches Err(NetMdError::UnknownDevice),
            r is Ok <==> !is_unknown(table@, vendor_id, product_id),
            r matches Ok(c) ==> exists|i: int|
                is_first_match(table@, vendor_id, product_id, i) && same_id(c.spec_model(), #[trigger] table@[i]),
    {
        match find_device(table, vendor_id, product_id) {
            Some(i) => Ok(Claim { model: copy_id(&table[i]) }),
            None => Err(NetMdError::UnknownDevice),
        }
    }

    /// Creates the session once the claim of the interface has been attempted.
    pub fn new(claim: Claim, outcome: Result<(), String>) -> (r: Result<Self, NetMdError>)
        ensures
            r is Ok <==> outcome is Ok,
            r matches Ok(s) ==> same_id(s.spec_model(), claim.spec_model()) && s.spec_status() is None && s.spec_claimed(),
            outcome matches Err(m) ==> r matches Err(NetMdError::ClaimFailed(e)) && e == m,
    {
        match outcome {
            Ok(()) => Ok(NetMD { model: claim.model, status: None, claimed: true }),
            Err(m) => Err(NetMdError::ClaimFailed(m)),
        }
    }

    /// The model name from the allow-list.
    pub fn device_name(&self) -> (r: &Option<String>)
        ensures
            *r == self.spec_model().name,
    {
        &self.model.name
    }

    /// The vendor id.
    pub fn vendor_id(&self) -> (r: &u16)
        ensures
            *r == self.spec_model().vendor_id,
    {
        &self.model.vendor_id
    }

    /// The product id.
    pub fn product_id(&self) -> (r: &u16)
        ensures
            *r == self.spec_model().product_id,
    {
        &self.model.product_id
    }

    /// The last known playback status, if any.
    pub fn status(&self) -> (r: Option<Status>)
        ensures
            r == self.spec_status(),
    {
        self.status
    }

    /// Whether the session still holds the interface claim.
    pub fn is_claimed(&self) -> (r: bool)
        ensures
            r == self.spec_claimed(),
    {
        self.claimed
    }

    /// Interprets a poll answer: the pending reply length and the raw bytes.
    pub fn poll(&self, raw: [u8; 4]) -> (r: (u16, [u8; 4]))
        ensures
            r.0 as nat == poll_length_of(raw@),
            r.1 == raw,
    {
        decode_poll(raw)
    }

    /// The transfer that sends a normal command, given the poll answer taken just before.
    pub fn send_command(&self, command: Vec<u8>, poll: [u8; 4]) -> (r: Result<ControlOut, NetMdError>)
        ensures
            !is_ready(poll@) <==> r matches Err(NetMdError::NotReady),
            is_ready(poll@) <==> r is Ok,
            r matches Ok(t) ==> t.request == COMMAND_REQUEST && t.data@ == command@,
    {
        self.command_transfer(command, poll, false)
    }

    /// The transfer that sends a factory command, given the poll answer taken just before.
    pub fn send_factory_command(&self, command: Vec<u8>, poll: [u8; 4]) -> (r: Result<ControlOut, NetMdError>)
        ensures
            !is_ready(poll@) <==> r matches Err(NetMdError::NotReady),
            is_ready(poll@) <==> r is Ok,
            r matches Ok(t) ==> t.request == FACTORY_REQUEST && t.data@ == command@,
    {
        self.command_transfer(command, poll, true)
    }

    fn command_transfer(&self, command: Vec<u8>, poll: [u8; 4], factory: bool) -> (r: Result<ControlOut, NetMdError>)
        ensures
            !is_ready(poll@) <==> r matches Err(NetMdError::NotReady),
            is_ready(poll@) <==> r is Ok,
            r matches Ok(t) ==> t.request == command_request(factory) && t.data@ == command@,
    {
        if poll[2] != 0 {
            return Err(NetMdError::NotReady);
        }
        let request: u8 = if factory { FACTORY_REQUEST } else { COMMAND_REQUEST };
        Ok(ControlOut { request, data: command })
    }

    /// Starts the wait for a normal reply.
    pub fn read_reply(&self, override_length: Option<i32>) -> (w: ReplyWait)
        ensures
            w.spec_factory() == false,
            w.spec_override_length() == override_length,
            w.spec_attempt() == 0,
    {
        Self::reply_wait(false, override_length)
    }

    /// Starts the wait for a factory reply.
    pub fn read_factory_reply(&self, override_length: Option<i32>) -> (w: ReplyWait)
        ensures
            w.spec_factory() == true,
            w.spec_override_length() == override_length,
            w.spec_attempt() == 0,
    {
        Self::reply_wait(true, override_length)
    }

    fn reply_wait(factory: bool, override_length: Option<i32>) -> (w: ReplyWait)
        ensures
            w.spec_factory() == factory,
            w.spec_override_length() == override_length,
            w.spec_attempt() == 0,
    {
        ReplyWait { factory, override_length, attempt: 0 }
    }

    /// Starts a bulk read of `length` bytes in transfers of at most `chunksize` bytes.
    pub fn read_bulk(&self, length: usize, chunksize: usize) -> (b: BulkRead)
        ensures
            b.spec_total() == length,
            b.spec_chunk() == chunksize,
            b.spec_data() == Seq::<u8>::empty(),
    {
        self.read_bulk_to_array(length, chunksize)
    }

    /// Starts a bulk read of `length` bytes into one buffer, in transfers of at most `chunksize` bytes.
    pub fn read_bulk_to_array(&self, length: usize, chunksize: usize) -> (b: BulkRead)
        ensures
            b.spec_total() == length,
            b.spec_chunk() == chunksize,
            b.spec_data() == Seq::<u8>::empty(),
    {
        BulkRead { total: length, chunk: chunksize, data: Vec::new() }
    }

    /// The single bulk-out transfer that writes `data` whole.
    pub fn write_bulk(&self, data: Vec<u8>) -> (t: BulkOut)
        ensures
            t.endpoint == BULK_WRITE_ENDPOINT,
            t.data@ == data@,
    {
        BulkOut { endpoint: BULK_WRITE_ENDPOINT, data }
    }

    /// Gives the interface claim up; true exactly when the claim was still held,
    /// that is when the caller must release the interface now.
    pub fn release(&mut self) -> (r: bool)
        ensures
            r == old(self).spec_claimed(),
            !final(self).spec_claimed(),
            same_id(final(self).spec_model(), old(self).spec_model()),
            final(self).spec_status() == old(self).spec_status(),
    {
        let held = self.claimed;
        self.claimed = false;
        held
    }
}

impl ReplyWait {
    /// Whether the reply is read with the factory request.
    pub closed spec fn spec_factory(&self) -> bool {
        self.factory
    }

    /// The length given by the caller, if any.
    pub closed spec fn spec_override_length(&self) -> Option<i32> {
        self.override_length
    }

    /// The number of zero poll answers so far.
    pub closed spec fn spec_attempt(&self) -> u64 {
        self.attempt
    }

    /// Whether the reply is read with the factory request.
    pub fn is_factory(&self) -> (r: bool)
        ensures
            r == self.spec_factory(),
    {
        self.factory
    }

    /// How many zero poll answers have come so far.
    pub fn attempt(&self) -> (r: u64)
        ensures
            r == self.spec_attempt(),
    {
        self.attempt
    }

    /// Takes the reply length of the latest poll answer and says what to do next.
    pub fn on_poll(&mut self, length: u16) -> (r: ReplyStep)
        ensures
            final(self).spec_factory() == old(self).spec_factory(),
            final(self).spec_override_length() == old(self).spec_override_length(),
            length == 0 ==> r == ReplyStep::Wait(retry_delay_u64(old(self).spec_attempt() as nat))
                && final(self).spec_attempt() == next_attempt(old(self).spec_attempt()),
            length != 0 ==> r == ReplyStep::Read(ControlIn {
                request: reply_request(old(self).spec_factory()),
                length: resolved_length(old(self).spec_override_length(), length),
            }) && final(self).spec_attempt() == old(self).spec_attempt(),
    {
        if length == 0 {
            let ms = reply_retry_delay(self.attempt);
            if self.attempt < u64::MAX {
                self.attempt = self.attempt + 1;
            }
            return ReplyStep::Wait(ms);
        }
        let resolved: u16 = match self.override_length {
            Some(v) => v as u16,
            None => length,
        };
        let request: u8 = if self.factory { FACTORY_REQUEST } else { REPLY_REQUEST };
        ReplyStep::Read(ControlIn { request, length: resolved })
    }
}

impl BulkRead {
    /// The number of bytes to read.
    pub closed spec fn spec_total(&self) -> usize {
        self.total
    }

    /// The largest transfer asked for.
    pub closed spec fn spec_chunk(&self) -> usize {
        self.chunk
    }

    /// The bytes received so far, in arrival order.
    pub closed spec fn spec_data(&self) -> Seq<u8> {
        self.data@
    }

    /// The number of bytes asked for in all.
    pub fn total(&self) -> (r: usize)
        ensures
            r == self.spec_total(),
    {
        self.total
    }

    /// The bytes received so far, in arrival order.
    pub fn data(&self) -> (r: &Vec<u8>)
        ensures
            r@ == self.spec_data(),
    {
        &self.data
    }

    /// The next bulk-in transfer, or `None` once `total` bytes have arrived.
    pub fn next_request(&self) -> (r: Option<BulkIn>)
        ensures
            self.spec_data().len() < self.spec_total() <==> r is Some,
            r matches Some(t) ==> t.endpoint == BULK_READ_ENDPOINT
                && t.length as nat == next_chunk(self.spec_total() as nat, self.spec_chunk() as nat, self.spec_data().len()),
    {
        let done = self.data.len();
        if done >= self.total {
            return None;
        }
        let rest = self.total - done;
        let length: usize = if self.chunk <= rest { self.chunk } else { rest };
        Some(BulkIn { endpoint: BULK_READ_ENDPOINT, length })
    }

    /// Appends what a bulk-in transfer returned.
    pub fn receive(&mut self, bytes: Vec<u8>)
        ensures
            final(self).spec_data() == old(self).spec_data() + bytes@,
            final(self).spec_total() == old(self).spec_total(),
            final(self).spec_chunk() == old(self).spec_chunk(),
    {
        let mut bytes = bytes;
        self.data.append(&mut bytes);
    }

    /// The whole buffer read.
    pub fn into_data(self) -> (r: Vec<u8>)
        ensures
            r@ == self.spec_data(),
    {
        self.data
    }
}

} // verus!
