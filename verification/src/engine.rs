//! The engine handle and the transient values obtained through it.
//!
//! `Core` owns exactly one engine context; decode records, configuration
//! views and open-file handles are all acquired through it.  The engine
//! itself is an external collaborator behind a narrow call surface; this
//! module models that surface over plain values — a decode succeeds exactly
//! when the buffer holds one whole four-byte instruction, the configuration
//! store maps well-encoded keys to the value set last, and every open file
//! handle is tracked until its one matching close.  What matters to this
//! layer is the ownership discipline: no foreign null is ever dereferenced,
//! and each acquired handle is released exactly once.

use crate::errors::{AbbrevError, AnalysisError, ConfigError, DecodeError, OpenError};
use crate::strbuf::StrBuf;
use vstd::prelude::*;
use vstd::string::StringSliceAdditionalSpecFns;

verus! {

/// Whether a byte sequence has an interior zero and so cannot cross the
/// engine's text-encoding boundary.
pub open spec fn has_nul(bs: Seq<u8>) -> bool {
    exists|i: int| 0 <= i < bs.len() && bs[i] == 0
}

/// Scans a text for a zero byte.
fn contains_nul(s: &str) -> (r: bool)
    ensures
        r == has_nul(s.spec_bytes()),
{
    let bs = s.as_bytes();
    let mut i: usize = 0;
    while i < bs.len()
        invariant
            i <= bs@.len(),
            bs@ == s.spec_bytes(),
            forall|j: int| 0 <= j < i ==> bs@[j] != 0,
        decreases bs@.len() - i,
    {
        if bs[i] == 0 {
            assert(bs@[i as int] == 0);
            return true;
        }
        i += 1;
    }
    false
}

/// Which parts of a decode the caller asks the engine to fill in.
#[derive(Clone, Copy, Debug, PartialEq, Eq, Structural)]
pub enum AnalysisOpMask {
    /// Size and address only.
    Basic,
    /// Also the disassembled mnemonic.
    Disasm,
    /// Also the mnemonic and the lifted-IL effect.
    Il,
}

impl AnalysisOpMask {
    /// Whether the engine is asked for the mnemonic text.
    pub open spec fn wants_disasm(self) -> bool {
        self is Disasm || self is Il
    }

    /// Whether the engine is asked for the lifted-IL effect.
    pub open spec fn wants_il(self) -> bool {
        self is Il
    }
}

/// The mnemonic the engine names a decoded opcode byte with.
pub open spec fn mnemonic_of(op: u8) -> Seq<char> {
    if op % 4 == 0 {
        "add"@
    } else if op % 4 == 1 {
        "sub"@
    } else if op % 4 == 2 {
        "mul"@
    } else {
        "mov"@
    }
}

/// The text the engine's stringifier renders a lifted-IL effect to: one
/// line, or an indented form when a pretty rendering is asked for.
pub open spec fn il_of(op: u8, pretty: bool) -> Seq<char> {
    if pretty {
        "(set x0\n  ("@ + mnemonic_of(op) + " x1 x2))"@
    } else {
        "(set x0 ("@ + mnemonic_of(op) + " x1 x2))"@
    }
}

/// One decode result: a transient record whose embedded mnemonic text and
/// lifted-IL effect are owned by the record and finalized with it, exactly
/// once, independently of the engine handle that produced it.
pub struct AnalysisOp {
    /// Where the instruction was decoded from.
    pub addr: usize,
    /// Decoded length in bytes.
    pub size: u32,
    /// The mnemonic text, or `None` when the engine could not name the
    /// instruction (a foreign null).
    pub mnemonic: Option<String>,
    /// The lifted-IL effect, or `None` when the engine produced no IL.
    pub il_op: Option<u8>,
}

impl AnalysisOp {
    /// The decoded mnemonic, or an error when the engine left the mnemonic
    /// null — the null is reported, never dereferenced.
    pub fn mnemonic(&self) -> (r: Result<&str, DecodeError>)
        ensures
            self.mnemonic matches Some(m) ==> (r matches Ok(s) && s@ == m@),
            self.mnemonic is None ==> r == Err::<&str, DecodeError>(DecodeError::NullMnemonic),
    {
        match &self.mnemonic {
            Some(m) => Ok(m.as_str()),
            None => Err(DecodeError::NullMnemonic),
        }
    }

    /// Renders the lifted-IL effect to text through a string buffer, or
    /// returns `None` when the engine produced no IL for this instruction.
    pub fn il_str(&self, pretty: bool) -> (r: Option<String>)
        ensures
            self.il_op matches Some(op) ==> (r matches Some(s) && s@ == il_of(op, pretty)),
            self.il_op is None ==> r is None,
    {
        match &self.il_op {
            Some(op) => {
                let mn: &str = mnemonic_text(*op);
                let mut sb = StrBuf::new();
                if pretty {
                    sb.append("(set x0\n  (");
                } else {
                    sb.append("(set x0 (");
                }
                sb.append(mn);
                sb.append(" x1 x2))");
                let out = sb.drain();
                proof {
                    assert(out@ =~= il_of(*op, pretty));
                }
                Some(out)
            },
            None => None,
        }
    }
}

/// The engine's mnemonic table.
fn mnemonic_text(op: u8) -> (r: &'static str)
    ensures
        r@ == mnemonic_of(op),
{
    let sel = op % 4;
    if sel == 0 {
        "add"
    } else if sel == 1 {
        "sub"
    } else if sel == 2 {
        "mul"
    } else {
        "mov"
    }
}

/// A handle to a binary file opened through the engine; it borrows the
/// engine's lifetime and is released through `bin_close` on the same
/// engine, exactly once.
pub struct BinFile {
    id: u64,
}

impl BinFile {
    /// The engine-assigned identity of this open file.
    pub closed spec fn id(&self) -> u64 {
        self.id
    }
}

/// A handle to a table of abbreviation declarations parsed by the engine
/// from raw bytes; the wrapper owns the table and releases it once.
pub struct DwarfAbbrev {
    data: Vec<u8>,
}

impl DwarfAbbrev {
    /// The bytes the table was parsed from.
    pub closed spec fn input(&self) -> Seq<u8> {
        self.data@
    }

    /// Parses an abbreviation table from raw bytes.  The foreign parser
    /// returns null on an empty input, and the null is surfaced as an
    /// error.
    pub fn new(input: &[u8]) -> (r: Result<DwarfAbbrev, AbbrevError>)
        ensures
            input@.len() == 0 ==> r == Err::<DwarfAbbrev, AbbrevError>(AbbrevError::Null),
            input@.len() > 0 ==> (r matches Ok(a) && a.input() == input@),
    {
        if input.len() == 0 {
            Err(AbbrevError::Null)
        } else {
            let mut data: Vec<u8> = Vec::with_capacity(input.len());
            let mut i: usize = 0;
            while i < input.len()
                invariant
                    i <= input@.len(),
                    data@ =~= input@.take(i as int),
                decreases input@.len() - i,
            {
                data.push(input[i]);
                proof {
                    assert(input@.take(i + 1) =~= input@.take(i as int).push(input@[i as int]));
                }
                i += 1;
            }
            proof {
                assert(input@.take(input@.len() as int) =~= input@);
            }
            Ok(DwarfAbbrev { data })
        }
    }
}

/// The value the configuration store yields for `k`: the value set last,
/// or `None` when the key was never set.
pub open spec fn cfg_lookup(entries: Seq<(Seq<char>, Seq<char>)>, k: Seq<char>) -> Option<
    Seq<char>,
>
    decreases entries.len(),
{
    if entries.len() == 0 {
        None
    } else if entries.last().0 == k {
        Some(entries.last().1)
    } else {
        cfg_lookup(entries.drop_last(), k)
    }
}

/// Setting then getting: after one more assignment of `v` to `k`, the
/// store yields `v` for `k` and is unchanged for every other key.
pub proof fn lemma_config_round_trip(
    entries: Seq<(Seq<char>, Seq<char>)>,
    k: Seq<char>,
    v: Seq<char>,
    other: Seq<char>,
)
    ensures
        cfg_lookup(entries.push((k, v)), k) == Some(v),
        other != k ==> cfg_lookup(entries.push((k, v)), other) == cfg_lookup(entries, other),
{
    assert(entries.push((k, v)).last() == (k, v));
    assert(entries.push((k, v)).drop_last() =~= entries);
}

/// One engine context: the sole owner of the foreign engine instance.  The
/// configuration store and the table of open binary files reached through
/// it are modelled as plain values.
pub struct Core {
    cfg: Vec<(String, String)>,
    files: Vec<u64>,
    next_file: u64,
}

impl Core {
    /// The configuration assignments made so far, in order.
    pub closed spec fn cfg(&self) -> Seq<(Seq<char>, Seq<char>)> {
        Seq::new(self.cfg@.len(), |i: int| (self.cfg@[i].0@, self.cfg@[i].1@))
    }

    /// The identities of the binary files currently open through this
    /// engine.
    pub closed spec fn open_files(&self) -> Seq<u64> {
        self.files@
    }

    /// Every open file handle is distinct and was assigned before the next
    /// free identity.
    pub closed spec fn wf(&self) -> bool {
        &&& forall|i: int, j: int|
            0 <= i < j < self.files@.len() ==> self.files@[i] != self.files@[j]
        &&& forall|i: int| 0 <= i < self.files@.len() ==> self.files@[i] < self.next_file
    }

    /// Whether the engine can still assign a fresh file identity.
    pub closed spec fn ids_left(&self) -> bool {
        self.next_file < u64::MAX
    }

    /// Allocates one engine context.  The model allocation cannot fail; a
    /// real allocation failure must not be proceeded past with a null
    /// handle.
    pub fn new() -> (r: Self)
        ensures
            r.cfg() =~= Seq::<(Seq<char>, Seq<char>)>::empty(),
            r.open_files() =~= Seq::<u64>::empty(),
            r.wf(),
            r.ids_left(),
    {
        Core { cfg: Vec::new(), files: Vec::new(), next_file: 0 }
    }

    /// Decodes one instruction from `bytes` at `addr`.  The engine reports
    /// a non-positive length — surfaced as an error, with no partial record
    /// — exactly when the buffer is too short to hold one whole
    /// instruction; otherwise the record carries what the mask asked for.
    pub fn analysis_op(&self, bytes: &[u8], addr: usize, mask: AnalysisOpMask) -> (r: Result<
        AnalysisOp,
        AnalysisError,
    >)
        ensures
            r is Ok <==> bytes@.len() >= 4,
            r matches Ok(op) ==> op.addr == addr && op.size == 4 && (match op.mnemonic {
                Some(m) => mask.wants_disasm() && m@ == mnemonic_of(bytes@[0]),
                None => !mask.wants_disasm(),
            }) && op.il_op == (if mask.wants_il() {
                Some(bytes@[0])
            } else {
                None
            }),
            r matches Err(e) ==> e == AnalysisError::Decode,
    {
        if bytes.len() < 4 {
            return Err(AnalysisError::Decode);
        }
        let opb = bytes[0];
        let mnemonic: Option<String> = match mask {
            AnalysisOpMask::Basic => None,
            _ => Some(mnemonic_text(opb).to_owned()),
        };
        let il_op: Option<u8> = match mask {
            AnalysisOpMask::Il => Some(opb),
            _ => None,
        };
        Ok(AnalysisOp { addr, size: 4, mnemonic, il_op })
    }

    /// Sets `k` to `v` in the engine's configuration.  Fails exactly when
    /// one of the two cannot cross the text-encoding boundary; the store is
    /// then left untouched.
    pub fn config_set(&mut self, k: &str, v: &str) -> (r: Result<(), ConfigError>)
        ensures
            final(self).open_files() == old(self).open_files(),
            final(self).wf() == old(self).wf(),
            final(self).ids_left() == old(self).ids_left(),
            has_nul(k.spec_bytes()) || has_nul(v.spec_bytes()) ==> r == Err::<(), ConfigError>(
                ConfigError::Encoding,
            ) && final(self).cfg() == old(self).cfg(),
            !has_nul(k.spec_bytes()) && !has_nul(v.spec_bytes()) ==> r == Ok::<(), ConfigError>(())
                && final(self).cfg() =~= old(self).cfg().push((k@, v@)),
    {
        if contains_nul(k) || contains_nul(v) {
            return Err(ConfigError::Encoding);
        }
        self.cfg.push((k.to_owned(), v.to_owned()));
        Ok(())
    }

    /// Reads the value currently set for `k`: a copy of the value set
    /// last, or `None` when the key is unset or cannot cross the
    /// text-encoding boundary — never a crash.
    pub fn config_get(&self, k: &str) -> (r: Option<String>)
        ensures
            has_nul(k.spec_bytes()) ==> r is None,
            !has_nul(k.spec_bytes()) ==> match cfg_lookup(self.cfg(), k@) {
                Some(t) => (r matches Some(s) && s@ == t),
                None => r is None,
            },
    {
        if contains_nul(k) {
            return None;
        }
        let key: String = k.to_owned();
        let mut j: usize = self.cfg.len();
        proof {
            assert(self.cfg().take(j as int) =~= self.cfg());
        }
        while j > 0
            invariant
                j <= self.cfg@.len(),
                key@ == k@,
                !has_nul(k.spec_bytes()),
                cfg_lookup(self.cfg(), k@) == cfg_lookup(self.cfg().take(j as int), k@),
            decreases j,
        {
            let j1 = j - 1;
            let pair = &self.cfg[j1];
            proof {
                assert(self.cfg().take(j as int).last() == (self.cfg@[j1 as int].0@, self.cfg@[
                j1 as int].1@));
                assert(self.cfg().take(j as int).drop_last() =~= self.cfg().take(j1 as int));
            }
            if pair.0 == key {
                return Some(pair.1.clone());
            }
            j = j1;
        }
        None
    }

    /// Opens a binary file through the engine.  Fails when the path cannot
    /// cross the text-encoding boundary, and when the foreign open call
    /// returns null — which the engine does on an empty path and when no
    /// file identity is left.  On success the fresh handle joins the open
    /// table, distinct from every handle already open.
    pub fn bin_open(&mut self, path: &str) -> (r: Result<BinFile, OpenError>)
        ensures
            final(self).cfg() == old(self).cfg(),
            old(self).wf() ==> final(self).wf(),
            has_nul(path.spec_bytes()) ==> r == Err::<BinFile, OpenError>(OpenError::Encoding)
                && final(self).open_files() == old(self).open_files(),
            !has_nul(path.spec_bytes()) && path@.len() == 0 ==> r == Err::<BinFile, OpenError>(
                OpenError::Null,
            ) && final(self).open_files() == old(self).open_files(),
            !has_nul(path.spec_bytes()) && path@.len() > 0 && !old(self).ids_left() ==> r == Err::<
                BinFile,
                OpenError,
            >(OpenError::Null) && final(self).open_files() == old(self).open_files(),
            !has_nul(path.spec_bytes()) && path@.len() > 0 && old(self).ids_left() ==> (
            r matches Ok(bf) && final(self).open_files() =~= old(self).open_files().push(bf.id())
                && (old(self).wf() ==> !old(self).open_files().contains(bf.id()))),
    {
        if contains_nul(path) {
            return Err(OpenError::Encoding);
        }
        if path.is_empty() {
            return Err(OpenError::Null);
        }
        if self.next_file == u64::MAX {
            return Err(OpenError::Null);
        }
        let id = self.next_file;
        self.files.push(id);
        self.next_file = id + 1;
        proof {
            if old(self).wf() {
                assert(forall|i: int|
                    0 <= i < old(self).files@.len() ==> old(self).files@[i] != id);
                assert forall|i: int, j: int|
                    0 <= i < j < self.files@.len() implies self.files@[i] != self.files@[j] by {
                    assert(self.files@ == old(self).files@.push(id));
                }
            }
        }
        Ok(BinFile { id })
    }

    /// Closes a file handle obtained from this engine: the handle leaves
    /// the open table and is consumed, so it cannot be closed twice.
    /// Returns whether the handle was indeed open here.
    pub fn bin_close(&mut self, bf: BinFile) -> (r: bool)
        ensures
            final(self).cfg() == old(self).cfg(),
            old(self).wf() ==> final(self).wf(),
            r == old(self).open_files().contains(bf.id()),
            final(self).open_files() =~= old(self).open_files().remove_value(bf.id()),
    {
        let mut j: usize = 0;
        while j < self.files.len()
            invariant
                j <= self.files@.len(),
                self.files@ == old(self).files@,
                self.cfg@ == old(self).cfg@,
                self.next_file == old(self).next_file,
                forall|m: int| 0 <= m < j ==> self.files@[m] != bf.id,
            decreases self.files@.len() - j,
        {
            if self.files[j] == bf.id {
                proof {
                    let s = old(self).files@;
                    s.index_of_first_ensures(bf.id);
                    assert(s[j as int] == bf.id);
                    assert(s.contains(bf.id));
                    let fi = s.index_of_first(bf.id).unwrap();
                    assert(s[fi] == bf.id);
                    assert(fi >= j);
                    assert(fi <= j) by {
                        if fi > j {
                            assert(s[j as int] != bf.id);
                        }
                    }
                }
                self.files.remove(j);
                proof {
                    let s = old(self).files@;
                    if old(self).wf() {
                        assert forall|a: int, b: int|
                            0 <= a < b < self.files@.len() implies self.files@[a]
                            != self.files@[b] by {
                            assert(self.files@ == s.remove(j as int));
                            s.remove_ensures(j as int);
                        }
                        assert forall|a: int|
                            0 <= a < self.files@.len() implies self.files@[a]
                            < self.next_file by {
                            s.remove_ensures(j as int);
                        }
                    }
                }
                return true;
            }
            j += 1;
        }
        proof {
            let s = old(self).files@;
            s.index_of_first_ensures(bf.id);
            if s.contains(bf.id) {
                let w = choose|i: int| 0 <= i < s.len() && s[i] == bf.id;
                assert(s[w] != bf.id);
            }
        }
        false
    }
}

} // verus!
