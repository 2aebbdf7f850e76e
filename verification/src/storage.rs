//! Storage of the append-only transaction log and of state snapshots, and the layout of
//! the log: each transaction is framed by its length (`u64`, little-endian).
use crate::config::{path_join, Config};
use crate::error::{Error, Result};
use crate::replay::tx_views;
use crate::table::Duplicate;
use crate::state::{State, StateView};
use crate::tx::encode::{enc_signed_tx, put_signed_tx};
use crate::text::{concat2, owned};
use crate::tx::transaction::{SignedTx, SignedTxView};
use crate::wire::{
    dec_u64, enc_bytes, enc_u64, lemma_read_bytes, lemma_u64_roundtrip, put_bytes, put_u64, read_bytes,
    read_bytes_spec,
};
use vstd::prelude::*;

verus! {

/// The transactions of `log` from position `from` on (none when `from` is past its end).
pub open spec fn log_from(log: Seq<SignedTxView>, from: u64) -> Seq<SignedTxView> {
    if from <= log.len() {
        log.skip(from as int)
    } else {
        Seq::empty()
    }
}

/// The position a snapshot resumes from: its next position, 0 without one.
pub open spec fn cursor_of(snapshot: Option<(StateView, u64)>) -> u64 {
    match snapshot {
        Some((_, n)) => n,
        None => 0,
    }
}

/// Storage of an append-only transaction log and state snapshots. Implementations keep
/// appends in order, write snapshots atomically, and hand back the log as written.
///
/// An implementation that describes its contents (`models_contents`) gives them as
/// `stored_log` and `stored_snapshot`, and each method then keeps to them. Implementations
/// outside the verified library keep the default `models_contents() == false` and promise
/// nothing.
pub trait Storage {
    /// Whether `stored_log` and `stored_snapshot` describe what this storage holds.
    open spec fn models_contents() -> bool {
        false
    }

    /// The transactions in the log, in order.
    open spec fn stored_log(&self) -> Seq<SignedTxView> {
        Seq::empty()
    }

    /// The latest snapshot, by its view, with the position of the next transaction to apply.
    open spec fn stored_snapshot(&self) -> Option<(StateView, u64)> {
        None
    }

    /// Append a transaction to the log.
    fn append_tx(&mut self, tx: &SignedTx) -> (r: Result<()>)
        ensures
            Self::models_contents() ==> (r is Ok ==> final(self).stored_log() == old(self).stored_log().push(
                tx@,
            ) && final(self).stored_snapshot() == old(self).stored_snapshot()),
    ;

    /// The latest snapshot and the position of the next transaction to apply, if any.
    fn load_state(&self) -> (r: Result<Option<(State, u64)>>)
        ensures
            Self::models_contents() ==> (r matches Ok(o) ==> match o {
                Some((st, n)) => st.wf() && self.stored_snapshot() == Some((st@, n)),
                None => self.stored_snapshot() is None,
            }),
    ;

    /// Persist a snapshot; `next_tx_id` is the position of the next transaction to apply.
    fn persist_state(&mut self, state: &State, next_tx_id: u64) -> (r: Result<()>)
        ensures
            Self::models_contents() ==> (r is Ok ==> final(self).stored_snapshot() == Some(
                (state@, next_tx_id),
            ) && final(self).stored_log() == old(self).stored_log()),
    ;

    /// The transactions of the log from position `from_tx_id` (inclusive) to its end.
    fn load_txs_from(&self, from_tx_id: u64) -> (r: Result<Vec<SignedTx>>)
        ensures
            Self::models_contents() ==> (r matches Ok(v) ==> tx_views(v@) == log_from(
                self.stored_log(),
                from_tx_id,
            )),
    ;
}

/// A log and a snapshot held in memory.
pub struct MemoryStorage {
    log: Vec<SignedTx>,
    snapshot: Option<(State, u64)>,
}

impl MemoryStorage {
    /// An empty log and no snapshot.
    pub fn new() -> (m: MemoryStorage)
        ensures
            m.stored_log() == Seq::<SignedTxView>::empty(),
            m.stored_snapshot() is None,
    {
        let m = MemoryStorage { log: Vec::new(), snapshot: None };
        assert(tx_views(m.log@) =~= Seq::<SignedTxView>::empty());
        m
    }
}

impl Storage for MemoryStorage {
    open spec fn models_contents() -> bool {
        true
    }

    closed spec fn stored_log(&self) -> Seq<SignedTxView> {
        tx_views(self.log@)
    }

    closed spec fn stored_snapshot(&self) -> Option<(StateView, u64)> {
        match self.snapshot {
            Some((st, n)) => Some((st@, n)),
            None => None,
        }
    }

    fn append_tx(&mut self, tx: &SignedTx) -> (r: Result<()>) {
        let copy = tx.duplicate();
        self.log.push(copy);
        proof {
            assert(tx_views(self.log@) =~= tx_views(old(self).log@).push(tx@));
        }
        Ok(())
    }

    fn load_state(&self) -> (r: Result<Option<(State, u64)>>) {
        match &self.snapshot {
            Some((st, n)) => {
                if !st.check_wf() {
                    return Err(Error::StateError(owned("Snapshot holds a key twice")));
                }
                Ok(Some((st.duplicate(), *n)))
            },
            None => Ok(None),
        }
    }

    fn persist_state(&mut self, state: &State, next_tx_id: u64) -> (r: Result<()>) {
        if !state.check_wf() {
            return Err(Error::StateError(owned("Snapshot holds a key twice")));
        }
        self.snapshot = Some((state.duplicate(), next_tx_id));
        Ok(())
    }

    fn load_txs_from(&self, from_tx_id: u64) -> (r: Result<Vec<SignedTx>>) {
        let mut out: Vec<SignedTx> = Vec::new();
        let n = self.log.len();
        if (from_tx_id as u128) >= (n as u128) {
            proof {
                assert(tx_views(out@) =~= log_from(self.stored_log(), from_tx_id));
            }
            return Ok(out);
        }
        let start = from_tx_id as usize;
        let mut i: usize = start;
        while i < n
            invariant
                start <= i <= n,
                n == self.log@.len(),
                tx_views(out@) == tx_views(self.log@).subrange(start as int, i as int),
            decreases n - i,
        {
            let t = self.log[i].duplicate();
            assert(t@ == self.log@[i as int]@);
            let ghost before = out@;
            out.push(t);
            proof {
                assert(tx_views(out@) =~= tx_views(before).push(t@));
                assert(tx_views(out@) =~= tx_views(self.log@).subrange(start as int, i + 1));
            }
            i = i + 1;
        }
        proof {
            assert(tx_views(self.log@).subrange(start as int, n as int) =~= log_from(self.stored_log(), from_tx_id));
        }
        Ok(out)
    }
}

/// The log entry of a transaction: its length, then its canonical bytes.
pub open spec fn frame_of(t: Seq<u8>) -> Seq<u8> {
    enc_bytes(t)
}

/// The log entry of a transaction.
pub fn frame_tx(tx: &SignedTx) -> (r: Vec<u8>)
    ensures
        r@ == frame_of(enc_signed_tx(tx@)),
{
    let mut body: Vec<u8> = Vec::new();
    put_signed_tx(&mut body, tx);
    proof {
        assert(body@ =~= enc_signed_tx(tx@));
    }
    let mut out: Vec<u8> = Vec::new();
    put_bytes(&mut out, body.as_slice());
    proof {
        assert(out@ =~= frame_of(enc_signed_tx(tx@)));
    }
    out
}

/// The entries of a log from `pos`: a length prefix and that many bytes, repeatedly. Fewer
/// than 8 bytes left end the log; an entry cut short makes it unreadable (`None`).
pub open spec fn frames_from(b: Seq<u8>, pos: int) -> Option<Seq<Seq<u8>>>
    decreases b.len() - pos,
{
    if pos < 0 || pos + 8 > b.len() {
        Some(Seq::empty())
    } else {
        match read_bytes_spec(b, pos) {
            None => None,
            Some((f, p)) => if p <= pos {
                None
            } else {
                match frames_from(b, p) {
                    None => None,
                    Some(rest) => Some(seq![f] + rest),
                }
            },
        }
    }
}

/// Split a log into its entries; fails where an entry is cut short.
pub fn split_frames(log: &[u8]) -> (r: Option<Vec<Vec<u8>>>)
    ensures
        match frames_from(log@, 0) {
            Some(fs) => r matches Some(v) && v@.map_values(|f: Vec<u8>| f@) == fs,
            None => r is None,
        },
{
    let mut acc: Vec<Vec<u8>> = Vec::new();
    let mut pos: usize = 0;
    while pos <= log.len() && log.len() - pos >= 8
        invariant
            pos <= log@.len(),
            match frames_from(log@, pos as int) {
                Some(rest) => frames_from(log@, 0) == Some(acc@.map_values(|f: Vec<u8>| f@) + rest),
                None => frames_from(log@, 0) is None,
            },
        decreases log@.len() - pos,
    {
        match read_bytes(log, pos) {
            None => {
                return None;
            },
            Some((f, p)) => {
                proof {
                    assert(p > pos);
                    match frames_from(log@, p as int) {
                        Some(rest) => {
                            assert(acc@.push(f).map_values(|g: Vec<u8>| g@) =~= acc@.map_values(
                                |g: Vec<u8>| g@,
                            ).push(f@));
                            assert(acc@.map_values(|g: Vec<u8>| g@) + (seq![f@] + rest) =~= acc@.push(
                                f,
                            ).map_values(|g: Vec<u8>| g@) + rest);
                        },
                        None => {},
                    }
                }
                acc.push(f);
                pos = p;
            },
        }
    }
    proof {
        assert(acc@.map_values(|f: Vec<u8>| f@) + Seq::<Seq<u8>>::empty() =~= acc@.map_values(
            |f: Vec<u8>| f@,
        ));
    }
    Some(acc)
}

/// A snapshot file: the state's bytes, then the next position (`u64`, little-endian).
pub open spec fn snapshot_of(state_bytes: Seq<u8>, next_tx_id: u64) -> Seq<u8> {
    state_bytes + enc_u64(next_tx_id)
}

/// The bytes of a snapshot file.
pub fn snapshot_bytes(state_bytes: &[u8], next_tx_id: u64) -> (r: Vec<u8>)
    ensures
        r@ == snapshot_of(state_bytes@, next_tx_id),
{
    let mut out: Vec<u8> = Vec::new();
    crate::wire::put_raw(&mut out, state_bytes);
    put_u64(&mut out, next_tx_id);
    proof {
        assert(out@ =~= snapshot_of(state_bytes@, next_tx_id));
    }
    out
}

/// Split a snapshot file into the state's bytes and the next position; `None` when the file is
/// shorter than 8 bytes.
pub fn split_snapshot(data: &[u8]) -> (r: Option<(Vec<u8>, u64)>)
    ensures
        data@.len() < 8 ==> r is None,
        data@.len() >= 8 ==> (r matches Some((s, n)) && s@ == data@.subrange(0, data@.len() - 8)
            && n == dec_u64(data@.subrange(data@.len() - 8, data@.len() as int))),
{
    if data.len() < 8 {
        return None;
    }
    let cut = data.len() - 8;
    let (n, _) = crate::wire::read_u64(data, cut).unwrap();
    let mut state_bytes: Vec<u8> = Vec::new();
    let mut i: usize = 0;
    while i < cut
        invariant
            cut == data@.len() - 8,
            i <= cut,
            state_bytes@ == data@.subrange(0, i as int),
        decreases cut - i,
    {
        state_bytes.push(data[i]);
        proof {
            assert(data@.subrange(0, i + 1) =~= data@.subrange(0, i as int).push(data@[i as int]));
        }
        i = i + 1;
    }
    Some((state_bytes, n))
}


/// A log holding `frames`, each framed in turn.
pub open spec fn log_of(frames: Seq<Seq<u8>>) -> Seq<u8>
    decreases frames.len(),
{
    if frames.len() == 0 {
        Seq::empty()
    } else {
        frame_of(frames[0]) + log_of(frames.drop_first())
    }
}

proof fn lemma_frames_step(b: Seq<u8>, pos: int, f: Seq<u8>, p: int)
    requires
        0 <= pos,
        pos + 8 <= b.len(),
        read_bytes_spec(b, pos) == Some((f, p)),
        p > pos,
    ensures
        frames_from(b, pos) == (match frames_from(b, p) {
            None => None,
            Some(rest) => Some(seq![f] + rest),
        }),
{
}

proof fn lemma_log_cons(pre: Seq<u8>, frames: Seq<Seq<u8>>)
    requires
        frames.len() > 0,
    ensures
        pre + log_of(frames) == (pre + enc_bytes(frames[0])) + log_of(frames.drop_first()),
{
    let x = enc_bytes(frames[0]);
    let y = log_of(frames.drop_first());
    assert(log_of(frames) == x + y);
    assert(pre + (x + y) =~= (pre + x) + y);
}

proof fn lemma_frames_after(pre: Seq<u8>, frames: Seq<Seq<u8>>)
    requires
        forall|i: int| 0 <= i < frames.len() ==> (#[trigger] frames[i]).len() <= u64::MAX,
    ensures
        frames_from(pre + log_of(frames), pre.len() as int) == Some(frames),
    decreases frames.len(),
{
    if frames.len() == 0 {
        assert(pre + log_of(frames) =~= pre);
    } else {
        let f = frames[0];
        let rest = frames.drop_first();
        let pre2 = pre + enc_bytes(f);
        let b = pre2 + log_of(rest);
        lemma_log_cons(pre, frames);
        assert(f.len() <= u64::MAX);
        assert(b == pre + enc_bytes(f) + log_of(rest));
        lemma_read_bytes(f, pre, log_of(rest));
        assert forall|i: int| 0 <= i < rest.len() implies (#[trigger] rest[i]).len() <= u64::MAX by {
            assert(rest[i] == frames[i + 1]);
        }
        lemma_frames_after(pre2, rest);
        lemma_frames_step(b, pre.len() as int, f, pre2.len() as int);
        assert(seq![f] + rest =~= frames);
    }
}

/// Reading a log gives back, in order, the entries appended to it.
pub proof fn law_log_reads_back_appended_entries(frames: Seq<Seq<u8>>)
    requires
        forall|i: int| 0 <= i < frames.len() ==> (#[trigger] frames[i]).len() <= u64::MAX,
    ensures
        frames_from(log_of(frames), 0) == Some(frames),
{
    lemma_frames_after(Seq::empty(), frames);
    assert(Seq::<u8>::empty() + log_of(frames) =~= log_of(frames));
}

/// Reading a snapshot file gives back the state's bytes and the position written into it.
pub proof fn law_snapshot_reads_back(state_bytes: Seq<u8>, next_tx_id: u64)
    ensures
        ({
            let d = snapshot_of(state_bytes, next_tx_id);
            &&& d.len() >= 8
            &&& d.subrange(0, d.len() - 8) == state_bytes
            &&& dec_u64(d.subrange(d.len() - 8, d.len() as int)) == next_tx_id
        }),
{
    let d = snapshot_of(state_bytes, next_tx_id);
    assert(d.subrange(0, d.len() - 8) =~= state_bytes);
    assert(d.subrange(d.len() - 8, d.len() as int) =~= enc_u64(next_tx_id));
    lemma_u64_roundtrip(next_tx_id);
}

/// `i` is the dot that starts the extension of the file name in `p` (what follows the last
/// `/`): the last `.` of the name, not its first character.
pub open spec fn is_ext_dot(p: Seq<char>, i: int) -> bool {
    &&& 0 < i < p.len()
    &&& p[i] == '.'
    &&& p[i - 1] != '/'
    &&& forall|j: int| i < j < p.len() ==> p[j] != '.' && p[j] != '/'
}

/// The temporary file beside a snapshot at `p`: its extension replaced by `bin.tmp`, or
/// `.bin.tmp` appended when its name has none.
pub open spec fn tmp_path_of(p: Seq<char>) -> Seq<char> {
    if exists|i: int| is_ext_dot(p, i) {
        p.take(choose|i: int| is_ext_dot(p, i)) + ".bin.tmp"@
    } else {
        p + ".bin.tmp"@
    }
}

proof fn lemma_ext_dot_unique(p: Seq<char>, i: int, k: int)
    requires
        is_ext_dot(p, i),
        is_ext_dot(p, k),
    ensures
        i == k,
{
    if i < k {
        assert(p[k] != '.');
    } else if k < i {
        assert(p[i] != '.');
    }
}

/// The temporary file beside a snapshot.
pub fn tmp_path_for(p: &str) -> (r: String)
    ensures
        r@ == tmp_path_of(p@),
{
    let n = p.unicode_len();
    let mut i: usize = n;
    let mut dot: Option<usize> = None;
    while i > 0
        invariant_except_break
            i <= n,
            n == p@.len(),
            dot is None,
            forall|j: int| i <= j < n ==> p@[j] != '.' && p@[j] != '/',
        ensures
            i <= n,
            n == p@.len(),
            forall|j: int| i <= j < n ==> p@[j] != '.' && p@[j] != '/',
            match dot {
                Some(k) => k + 1 == i && p@[k as int] == '.',
                None => i == 0 || p@[i - 1] == '/',
            },
        decreases i,
    {
        let c = p.get_char(i - 1);
        if c == '/' {
            break;
        }
        if c == '.' {
            dot = Some(i - 1);
            break;
        }
        i = i - 1;
    }
    proof {
        reveal_strlit(".bin.tmp");
    }
    match dot {
        Some(k) => {
            if k > 0 && p.get_char(k - 1) != '/' {
                assert(is_ext_dot(p@, k as int));
                proof {
                    let c = choose|j: int| is_ext_dot(p@, j);
                    lemma_ext_dot_unique(p@, c, k as int);
                }
                let stem = p.substring_char(0, k);
                assert(stem@ =~= p@.take(k as int));
                return concat2(stem, ".bin.tmp");
            }
            assert forall|j: int| is_ext_dot(p@, j) implies false by {
                if j < k as int {
                    assert(p@[k as int] != '.');
                }
            }
        },
        None => {
            assert forall|j: int| is_ext_dot(p@, j) implies false by {
                if j < i as int {
                    assert(p@[i - 1] != '/');
                }
            }
        },
    }
    concat2(p, ".bin.tmp")
}

/// Where a file store keeps its data: the transaction log, the snapshot, and the temporary
/// file a snapshot is written to before it replaces the old one.
#[derive(Debug, Clone)]
pub struct FileStorage {
    tx_log_path: String,
    state_path: String,
    state_tmp_path: String,
}

impl FileStorage {
    /// The transaction log's path.
    pub closed spec fn tx_log_view(&self) -> Seq<char> {
        self.tx_log_path@
    }

    /// The snapshot's path.
    pub closed spec fn state_view(&self) -> Seq<char> {
        self.state_path@
    }

    /// The temporary snapshot's path.
    pub closed spec fn state_tmp_view(&self) -> Seq<char> {
        self.state_tmp_path@
    }

    /// The files of the data directory of `config`: `tx.log` and `state.bin`, with
    /// `state.bin.tmp` beside them.
    pub fn new(config: &Config) -> (r: FileStorage)
        ensures
            r.tx_log_view() == path_join(config.data_dir@, "tx.log"@),
            r.state_view() == path_join(config.data_dir@, "state.bin"@),
            r.state_tmp_view() == tmp_path_of(path_join(config.data_dir@, "state.bin"@)),
    {
        let state_path = config.get_state_path();
        let state_tmp_path = tmp_path_for(state_path.as_str());
        FileStorage { tx_log_path: config.get_tx_log_path(), state_path, state_tmp_path }
    }

    /// A store at the given paths; the temporary snapshot sits beside the snapshot.
    pub fn with_paths(tx_log_path: String, state_path: String) -> (r: FileStorage)
        ensures
            r.tx_log_view() == tx_log_path@,
            r.state_view() == state_path@,
            r.state_tmp_view() == tmp_path_of(state_path@),
    {
        let state_tmp_path = tmp_path_for(state_path.as_str());
        FileStorage { tx_log_path, state_path, state_tmp_path }
    }

    /// The transaction log's path.
    pub fn tx_log_path(&self) -> (r: &str)
        ensures
            r@ == self.tx_log_view(),
    {
        self.tx_log_path.as_str()
    }

    /// The snapshot's path.
    pub fn state_path(&self) -> (r: &str)
        ensures
            r@ == self.state_view(),
    {
        self.state_path.as_str()
    }

    /// The temporary snapshot's path.
    pub fn state_tmp_path(&self) -> (r: &str)
        ensures
            r@ == self.state_tmp_view(),
    {
        self.state_tmp_path.as_str()
    }
}

} // verus!
