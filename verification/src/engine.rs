//! The transfer engine: what to do with a destination, what to ask for, what
//! the response was, and how the transfer ended.

use crate::request::{fetch_request, Request, RequestView};
use crate::source::Source;
use crate::status::DlStatus;
use std::path::PathBuf;
use vstd::prelude::*;

verus! {

/// The engine: the two policy flags and the response body gathered so far.
#[derive(Debug, PartialEq, Eq)]
pub struct Dl {
    buffer: Vec<u8>,
    overwrite: bool,
    verbose: bool,
}

/// A `Dl` as mathematical values.
pub struct DlView {
    pub buffer: Seq<u8>,
    pub overwrite: bool,
    pub verbose: bool,
}

impl View for Dl {
    type V = DlView;

    closed spec fn view(&self) -> DlView {
        DlView { buffer: self.buffer@, overwrite: self.overwrite, verbose: self.verbose }
    }
}

/// A transfer that the engine decided to make: what to ask for, where the
/// body goes, and whether something was there before.
#[derive(Debug, PartialEq, Eq)]
pub struct Transfer {
    request: Request,
    location: PathBuf,
    existed: bool,
}

/// A `Transfer` as mathematical values.
pub struct TransferView {
    pub request: RequestView,
    pub location: PathBuf,
    pub existed: bool,
}

impl View for Transfer {
    type V = TransferView;

    closed spec fn view(&self) -> TransferView {
        TransferView { request: self.request@, location: self.location, existed: self.existed }
    }
}

/// What the engine decided for one destination.
#[derive(Debug, PartialEq, Eq)]
pub enum Plan {
    /// Nothing is fetched and nothing is written: this is the outcome.
    Skip(DlStatus),
    /// The source is fetched once and the body written to the destination.
    Fetch(Transfer),
}

/// A `Plan` as mathematical values.
pub enum PlanView {
    Skip(DlStatus),
    Fetch(TransferView),
}

impl View for Plan {
    type V = PlanView;

    open spec fn view(&self) -> PlanView {
        match self {
            Plan::Skip(status) => PlanView::Skip(*status),
            Plan::Fetch(transfer) => PlanView::Fetch(transfer@),
        }
    }
}

impl PlanView {
    /// The number of requests that the plan sends over the network.
    pub open spec fn network_requests(self) -> nat {
        match self {
            PlanView::Skip(_) => 0,
            PlanView::Fetch(_) => 1,
        }
    }

    /// The number of writes that the plan makes to the destination.
    pub open spec fn writes(self) -> nat {
        match self {
            PlanView::Skip(_) => 0,
            PlanView::Fetch(_) => 1,
        }
    }
}

impl TransferView {
    /// How the transfer ends once `num_bytes` bytes are written: the
    /// destination was replaced if it was there before, made if it was not.
    pub open spec fn outcome(self, num_bytes: usize) -> DlStatus {
        if self.existed {
            DlStatus::Replaced { location: self.location, num_bytes }
        } else {
            DlStatus::Downloaded { location: self.location, num_bytes }
        }
    }
}

impl DlView {
    /// The engine as it is made: nothing gathered, both flags off.
    pub open spec fn initial() -> DlView {
        DlView { buffer: Seq::empty(), overwrite: false, verbose: false }
    }

    /// The engine with an empty buffer, as a transfer starts.
    pub open spec fn reset(self) -> DlView {
        DlView { buffer: Seq::empty(), ..self }
    }

    /// The engine after one chunk of the response arrived.
    pub open spec fn receive(self, data: Seq<u8>) -> DlView {
        DlView { buffer: self.buffer + data, ..self }
    }

    /// The engine after `chunks` arrived, the first of them first.
    pub open spec fn receive_all(self, chunks: Seq<Seq<u8>>) -> DlView
        decreases chunks.len(),
    {
        if chunks.len() == 0 {
            self
        } else {
            self.receive(chunks.first()).receive_all(chunks.drop_first())
        }
    }

    /// Whether a destination is left as it is: it exists and the engine
    /// does not overwrite.
    pub open spec fn keeps(self, exists: bool) -> bool {
        exists && !self.overwrite
    }

    /// What the engine decides for the destination `to`, of which `exists`
    /// says whether it is there.
    pub open spec fn plan(self, from: Seq<char>, to: PathBuf, exists: bool) -> PlanView {
        if self.keeps(exists) {
            PlanView::Skip(DlStatus::FileExists(to))
        } else {
            PlanView::Fetch(
                TransferView {
                    request: fetch_request(from, self.verbose),
                    location: to,
                    existed: exists,
                },
            )
        }
    }
}

impl Transfer {
    /// What to ask of the transport.
    pub fn request(&self) -> (request: &Request)
        ensures
            request@ == self@.request,
    {
        &self.request
    }

    /// Where the body goes.
    pub fn location(&self) -> (location: &PathBuf)
        ensures
            *location == self@.location,
    {
        &self.location
    }

    /// Whether the destination was there when the transfer was planned.
    pub fn replaces(&self) -> (existed: bool)
        ensures
            existed == self@.existed,
    {
        self.existed
    }

    /// Ends the transfer: `num_bytes` is the number of bytes that the write
    /// to the destination reported.
    pub fn finish(self, num_bytes: usize) -> (status: DlStatus)
        ensures
            status == self@.outcome(num_bytes),
    {
        if self.existed {
            DlStatus::Replaced { location: self.location, num_bytes }
        } else {
            DlStatus::Downloaded { location: self.location, num_bytes }
        }
    }
}

impl Dl {
    /// An engine that overwrites nothing and reports nothing.
    pub fn new() -> (dl: Self)
        ensures
            dl@ == DlView::initial(),
    {
        Dl { buffer: Vec::new(), overwrite: false, verbose: false }
    }

    /// Sets whether an existing destination is replaced.
    pub fn overwrite(self, overwrite_file: bool) -> (dl: Self)
        ensures
            dl@ == (DlView { overwrite: overwrite_file, ..self@ }),
    {
        let mut dl = self;
        dl.overwrite = overwrite_file;
        dl
    }

    /// Sets whether the transport reports the protocol exchange.
    pub fn verbose(self, verbose: bool) -> (dl: Self)
        ensures
            dl@ == (DlView { verbose: verbose, ..self@ }),
    {
        let mut dl = self;
        dl.verbose = verbose;
        dl
    }

    /// Whether an existing destination is replaced.
    pub fn overwrites(&self) -> (overwrite: bool)
        ensures
            overwrite == self@.overwrite,
    {
        self.overwrite
    }

    /// Whether the transport reports the protocol exchange.
    pub fn is_verbose(&self) -> (verbose: bool)
        ensures
            verbose == self@.verbose,
    {
        self.verbose
    }

    /// Starts a transfer from `from` to `to`, of which `exists` says whether
    /// it is there. The buffer is emptied, whatever it held. An existing
    /// destination that is not to be overwritten is kept and nothing is
    /// fetched; in every other case the plan is to fetch `from` once and to
    /// write the body to `to`.
    pub fn download(&mut self, from: &Source, to: PathBuf, exists: bool) -> (plan: Plan)
        ensures
            final(self)@ == old(self)@.reset(),
            plan@ == old(self)@.plan(from@, to, exists),
    {
        self.buffer.clear();
        if exists && !self.overwrite {
            Plan::Skip(DlStatus::FileExists(to))
        } else {
            Plan::Fetch(
                Transfer { request: Request::fetch(from, self.verbose), location: to, existed: exists },
            )
        }
    }

    /// Takes one chunk of the response body: it is put behind what arrived
    /// before, and all of it is accepted.
    pub fn receive(&mut self, data: &[u8]) -> (accepted: usize)
        ensures
            final(self)@ == old(self)@.receive(data@),
            accepted == data@.len(),
    {
        self.buffer.extend_from_slice(data);
        assert(self.buffer@ =~= old(self).buffer@ + data@);
        data.len()
    }

    /// The response body gathered since the transfer started.
    pub fn body(&self) -> (body: &[u8])
        ensures
            body@ == self@.buffer,
    {
        self.buffer.as_slice()
    }
}

/// What `chunks` add up to is what the engine holds after they arrived,
/// behind what it held before; the flags stay as they were.
pub proof fn lemma_receive_all(dl: DlView, chunks: Seq<Seq<u8>>)
    ensures
        dl.receive_all(chunks) == (DlView { buffer: dl.buffer + chunks.flatten(), ..dl }),
    decreases chunks.len(),
{
    if chunks.len() == 0 {
        assert(dl.buffer + chunks.flatten() =~= dl.buffer);
    } else {
        lemma_receive_all(dl.receive(chunks.first()), chunks.drop_first());
        assert((dl.buffer + chunks.first()) + chunks.drop_first().flatten() =~= dl.buffer
            + chunks.flatten());
    }
}

/// The body of a transfer is the response and nothing else: after the reset
/// that starts it and the chunks that arrived, the engine holds the chunks
/// put together in their order, whatever it held before; the flags stay as
/// they were.
pub proof fn lemma_body_is_response(dl: DlView, chunks: Seq<Seq<u8>>)
    ensures
        dl.reset().receive_all(chunks) == (DlView { buffer: chunks.flatten(), ..dl }),
{
    lemma_receive_all(dl.reset(), chunks);
    assert(Seq::<u8>::empty() + chunks.flatten() =~= chunks.flatten());
}

/// Whatever the flags and whatever is there, the network is used at most
/// once, and exactly when the destination is not kept; the destination is
/// written exactly when the network is used; and every outcome names the
/// destination that the caller gave.
pub proof fn lemma_one_request_unless_kept(
    dl: DlView,
    from: Seq<char>,
    to: PathBuf,
    exists: bool,
    num_bytes: usize,
)
    ensures
        dl.plan(from, to, exists).network_requests() == (if dl.keeps(exists) {
            0nat
        } else {
            1nat
        }),
        dl.plan(from, to, exists).writes() == dl.plan(from, to, exists).network_requests(),
        dl.plan(from, to, exists) matches PlanView::Skip(status) ==> status.destination() == to
            && status.written() == 0,
        dl.plan(from, to, exists) matches PlanView::Fetch(transfer) ==> transfer.outcome(
            num_bytes,
        ).destination() == to && transfer.outcome(num_bytes).written() == num_bytes,
{
}

/// A destination that is not there is made. Whatever the flags, the source is
/// fetched once; the body handed to the write is the response, chunk after
/// chunk; and the outcome is `Downloaded` with the number of bytes written,
/// which is the length of the response where the write took all of it.
pub proof fn lemma_absent_destination_is_made(
    dl: DlView,
    from: Seq<char>,
    to: PathBuf,
    chunks: Seq<Seq<u8>>,
    num_bytes: usize,
)
    ensures
        dl.plan(from, to, false) is Fetch,
        dl.plan(from, to, false).network_requests() == 1,
        dl.plan(from, to, false)->Fetch_0.outcome(num_bytes) == (DlStatus::Downloaded {
            location: to,
            num_bytes,
        }),
        dl.reset().receive_all(chunks).buffer == chunks.flatten(),
        num_bytes == chunks.flatten().len() ==> dl.plan(from, to, false)->Fetch_0.outcome(
            num_bytes,
        ).written() == chunks.flatten().len(),
{
    lemma_body_is_response(dl, chunks);
}

/// A destination that is there is kept by an engine that does not overwrite:
/// nothing is sent over the network, nothing is written, and the outcome
/// names the destination.
pub proof fn lemma_existing_destination_is_kept(dl: DlView, from: Seq<char>, to: PathBuf)
    requires
        !dl.overwrite,
    ensures
        dl.plan(from, to, true) == PlanView::Skip(DlStatus::FileExists(to)),
        dl.plan(from, to, true).network_requests() == 0,
        dl.plan(from, to, true).writes() == 0,
{
}

/// A destination that is there is replaced by an engine that overwrites: the
/// source is fetched once; the body handed to the write is the new response
/// and nothing else; and the outcome is `Replaced` with the number of bytes
/// written, which is the length of the response where the write took all of
/// it.
pub proof fn lemma_existing_destination_is_replaced(
    dl: DlView,
    from: Seq<char>,
    to: PathBuf,
    chunks: Seq<Seq<u8>>,
    num_bytes: usize,
)
    requires
        dl.overwrite,
    ensures
        dl.plan(from, to, true) is Fetch,
        dl.plan(from, to, true).network_requests() == 1,
        dl.plan(from, to, true)->Fetch_0.outcome(num_bytes) == (DlStatus::Replaced {
            location: to,
            num_bytes,
        }),
        dl.reset().receive_all(chunks).buffer == chunks.flatten(),
        num_bytes == chunks.flatten().len() ==> dl.plan(from, to, true)->Fetch_0.outcome(
            num_bytes,
        ).written() == chunks.flatten().len(),
{
    lemma_body_is_response(dl, chunks);
}

/// One engine used for two transfers in turn: the body of the second is the
/// second response alone, whatever the first one left in the buffer.
pub proof fn lemma_transfers_do_not_leak(dl: DlView, first: Seq<Seq<u8>>, second: Seq<Seq<u8>>)
    ensures
        dl.reset().receive_all(first).reset().receive_all(second).buffer == second.flatten(),
        dl.reset().receive_all(first).reset().receive_all(second) == dl.reset().receive_all(
            second,
        ),
{
    lemma_body_is_response(dl, first);
    lemma_body_is_response(dl.reset().receive_all(first), second);
    lemma_body_is_response(dl, second);
}

/// Diagnostics change nothing but the request's own flag: two engines that
/// differ in `verbose` alone decide alike, gather alike and end alike.
pub proof fn lemma_verbose_only_observes(
    dl: DlView,
    from: Seq<char>,
    to: PathBuf,
    exists: bool,
    chunks: Seq<Seq<u8>>,
    num_bytes: usize,
)
    ensures
        ({
            let quiet = DlView { verbose: false, ..dl };
            let loud = DlView { verbose: true, ..dl };
            &&& quiet.plan(from, to, exists) is Skip <==> loud.plan(from, to, exists) is Skip
            &&& quiet.plan(from, to, exists) is Skip ==> quiet.plan(from, to, exists) == loud.plan(
                from,
                to,
                exists,
            )
            &&& quiet.plan(from, to, exists) matches PlanView::Fetch(q) ==> {
                &&& loud.plan(from, to, exists) matches PlanView::Fetch(l)
                &&& l == (TransferView { request: RequestView { verbose: true, ..q.request }, ..q })
                &&& l.outcome(num_bytes) == q.outcome(num_bytes)
            }
            &&& quiet.reset().receive_all(chunks).buffer == loud.reset().receive_all(chunks).buffer
        }),
{
    lemma_body_is_response(DlView { verbose: false, ..dl }, chunks);
    lemma_body_is_response(DlView { verbose: true, ..dl }, chunks);
}

} // verus!
