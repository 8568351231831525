//! The module loader: tracks one loaded native code module, decides when
//! the on-disk artifact has gone stale, computes the versioned file names
//! that dodge operating-system locks on the live module, and gates every
//! swap on the build-identifier exchange.
//!
//! Opening the artifact, copying it, and resolving its entry points are
//! disk and platform-loader work that the embedding layer performs; it
//! reports the observed modification time and the freshly loaded handle
//! back to this state machine, which owns every decision.

use vstd::prelude::*;
use vstd::string::StrSliceExecFns;
use vstd::string::StringExecFns;

use crate::digits::dec_digits;
use crate::digits::push_dec_digits;
use crate::errors::LoadError;

verus! {

/// Compares two pieces of text by their character sequences.
fn text_eq(a: &str, b: &str) -> (r: bool)
    ensures
        r == (a@ == b@),
{
    let a_len = a.unicode_len();
    let b_len = b.unicode_len();
    if a_len != b_len {
        return false;
    }
    let mut i: usize = 0;
    while i < a_len
        invariant
            a_len == a@.len(),
            b_len == b@.len(),
            a_len == b_len,
            0 <= i <= a_len,
            forall|j: int| 0 <= j < i ==> a@[j] == b@[j],
        decreases a_len - i,
    {
        if a.get_char(i) != b.get_char(i) {
            return false;
        }
        i += 1;
    }
    proof {
        assert(a@ =~= b@);
    }
    true
}

/// The build-identifier gate: a module may only be called through if its
/// embedded build identifier is exactly the kernel's own.  Returns
/// `AbiMismatch` otherwise, and the caller must then not call into the
/// module at all.
pub fn check_build_id(kernel_id: &str, module_id: &str) -> (r: Result<(), LoadError>)
    ensures
        r is Ok <==> kernel_id@ == module_id@,
        r is Err ==> r == Err::<(), LoadError>(LoadError::AbiMismatch),
{
    if text_eq(kernel_id, module_id) {
        Ok(())
    } else {
        Err(LoadError::AbiMismatch)
    }
}

/// The platform file name of the canonical artifact for `lib_name`:
/// the platform's shared-library prefix, the name, and its suffix.
pub fn artifact_filename(dll_prefix: &str, lib_name: &str, dll_suffix: &str) -> (r: String)
    ensures
        r@ == dll_prefix@ + lib_name@ + dll_suffix@,
{
    let mut s = String::new();
    s.append(dll_prefix);
    s.append(lib_name);
    s.append(dll_suffix);
    proof {
        assert(s@ =~= dll_prefix@ + lib_name@ + dll_suffix@);
    }
    s
}

/// The character sequence of the versioned sibling file name for
/// `lib_name` at reload `version`: the canonical name with `_<version>`
/// spliced in before the suffix.
pub open spec fn versioned_name_seq(
    dll_prefix: Seq<char>,
    lib_name: Seq<char>,
    version: nat,
    dll_suffix: Seq<char>,
) -> Seq<char> {
    dll_prefix + lib_name + seq!['_'] + dec_digits(version) + dll_suffix
}

/// The platform file name of the versioned copy of the artifact that a
/// reload at `version` actually opens, so that the operating system's lock
/// on the live module never blocks the build system from overwriting the
/// canonical artifact.
pub fn versioned_filename(dll_prefix: &str, lib_name: &str, version: u64, dll_suffix: &str) -> (r:
    String)
    ensures
        r@ == versioned_name_seq(dll_prefix@, lib_name@, version as nat, dll_suffix@),
{
    let mut s = String::new();
    s.append(dll_prefix);
    s.append(lib_name);
    proof {
        reveal_strlit("_");
        assert("_"@ =~= seq!['_']);
    }
    s.append("_");
    push_dec_digits(version, &mut s);
    s.append(dll_suffix);
    proof {
        assert(s@ =~= versioned_name_seq(dll_prefix@, lib_name@, version as nat, dll_suffix@));
    }
    s
}

/// One loaded native code module: the live handle, the last modification
/// time observed on the canonical artifact, the module's logical name, the
/// directory it lives in, and the reload version counter.
///
/// The handle type `H` is opaque to the kernel: the embedding layer passes
/// whatever its platform loader hands out, and this state machine only
/// ever stores or replaces it whole.
pub struct GameplayLib<H> {
    lib: H,
    last_modified: u64,
    lib_name: String,
    lib_path: String,
    version: u64,
}

impl<H> GameplayLib<H> {
    pub closed spec fn spec_lib(&self) -> H {
        self.lib
    }

    pub closed spec fn spec_last_modified(&self) -> u64 {
        self.last_modified
    }

    pub closed spec fn spec_lib_name(&self) -> Seq<char> {
        self.lib_name@
    }

    pub closed spec fn spec_lib_path(&self) -> Seq<char> {
        self.lib_path@
    }

    pub closed spec fn spec_version(&self) -> u64 {
        self.version
    }

    /// Whether an observed modification time obliges a reload: any change
    /// from the last recorded time does.
    pub open spec fn reload_needed(&self, observed_modified: u64) -> bool {
        observed_modified != self.spec_last_modified()
    }

    /// Wraps the freshly loaded handle of a module whose `init` entry
    /// point has just run, recording the artifact's observed modification
    /// time; the reload counter starts at zero.
    pub fn new(lib: H, lib_name: String, lib_path: String, last_modified: u64) -> (r: GameplayLib<
        H,
    >)
        ensures
            r.spec_lib() == lib,
            r.spec_last_modified() == last_modified,
            r.spec_lib_name() == lib_name@,
            r.spec_lib_path() == lib_path@,
            r.spec_version() == 0,
    {
        GameplayLib { lib, last_modified, lib_name, lib_path, version: 0 }
    }

    /// The live handle.
    pub fn lib(&self) -> (r: &H)
        ensures
            *r == self.spec_lib(),
    {
        &self.lib
    }

    /// The modification time recorded at the last load or reload.
    pub fn last_modified(&self) -> (r: u64)
        ensures
            r == self.spec_last_modified(),
    {
        self.last_modified
    }

    /// The module's logical name.
    pub fn lib_name(&self) -> (r: &String)
        ensures
            r@ == self.spec_lib_name(),
    {
        &self.lib_name
    }

    /// The directory the module's artifact lives in.
    pub fn lib_path(&self) -> (r: &String)
        ensures
            r@ == self.spec_lib_path(),
    {
        &self.lib_path
    }

    /// How many reloads this module has gone through.
    pub fn version(&self) -> (r: u64)
        ensures
            r == self.spec_version(),
    {
        self.version
    }

    /// Decides whether the module must be reloaded, given the modification
    /// time the embedder just observed on the canonical artifact.  Decides
    /// against it exactly when the time is unchanged, and never touches
    /// any state, so checking is free to repeat.
    pub fn check_reload(&self, observed_modified: u64) -> (reload: bool)
        ensures
            reload == self.reload_needed(observed_modified),
    {
        observed_modified != self.last_modified
    }

    /// The version counter a reload decided on now would be loaded under.
    pub fn next_version(&self) -> (v: u64)
        requires
            self.spec_version() < u64::MAX,
        ensures
            v == self.spec_version() + 1,
    {
        self.version + 1
    }

    /// Installs a freshly loaded handle after a reload: bumps the version
    /// counter, records the observed modification time, and replaces the
    /// handle, dropping the previous one only now that the new one is
    /// confirmed loaded.  The module's name and directory never change.
    pub fn commit_reload(&mut self, new_lib: H, observed_modified: u64)
        requires
            old(self).spec_version() < u64::MAX,
        ensures
            final(self).spec_lib() == new_lib,
            final(self).spec_last_modified() == observed_modified,
            final(self).spec_version() == old(self).spec_version() + 1,
            final(self).spec_lib_name() == old(self).spec_lib_name(),
            final(self).spec_lib_path() == old(self).spec_lib_path(),
    {
        self.version = self.version + 1;
        self.last_modified = observed_modified;
        self.lib = new_lib;
    }

    /// Gates a reload on the build-identifier exchange and commits it only
    /// when the module's identifier matches the kernel's.  On a mismatch
    /// the freshly loaded handle is discarded, the error says so, and the
    /// previously loaded module remains active, untouched.
    pub fn try_commit_reload(
        &mut self,
        new_lib: H,
        observed_modified: u64,
        kernel_id: &str,
        module_id: &str,
    ) -> (r: Result<(), LoadError>)
        requires
            old(self).spec_version() < u64::MAX,
        ensures
            r is Ok <==> kernel_id@ == module_id@,
            r is Ok ==> {
                &&& final(self).spec_lib() == new_lib
                &&& final(self).spec_last_modified() == observed_modified
                &&& final(self).spec_version() == old(self).spec_version() + 1
                &&& final(self).spec_lib_name() == old(self).spec_lib_name()
                &&& final(self).spec_lib_path() == old(self).spec_lib_path()
            },
            r is Err ==> r == Err::<(), LoadError>(LoadError::AbiMismatch) && *final(self) == *old(
                self,
            ),
    {
        match check_build_id(kernel_id, module_id) {
            Ok(()) => {
                self.commit_reload(new_lib, observed_modified);
                Ok(())
            },
            Err(e) => Err(e),
        }
    }
}

/// An unchanged artifact never triggers work: however many times the
/// loader is asked in a row, while the observed modification time stays at
/// the recorded one every check decides against loading, and since
/// checking mutates nothing the answer cannot drift between the calls.
pub proof fn lemma_quiet_checks_load_nothing<H>(g: GameplayLib<H>, first: u64, second: u64)
    requires
        first == g.spec_last_modified(),
        second == g.spec_last_modified(),
    ensures
        !g.reload_needed(first),
        !g.reload_needed(second),
{
}

} // verus!
