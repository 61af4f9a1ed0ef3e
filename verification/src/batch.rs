//! The application table: the number of embedded applications and the byte
//! range each occupies inside the kernel image, as the build-time packer's
//! linker symbol describes them.
//!
//! Reading the symbol from raw memory is done by the unverified glue, which
//! then hands the plain values in here.

use vstd::prelude::*;
use vstd::string::StringSliceAdditionalSpecFns;

use crate::config::MAX_APP_NUM;
use crate::console::Console;
use crate::fmt::{push_dec, push_hex, spec_dec, spec_hex};

verus! {

/// Capacity of the address table: one start per application plus the final
/// end address.
pub const APP_START_CAP: usize = MAX_APP_NUM + 1;

/// The application table and the cursor of the batch runner.
pub struct AppManager {
    /// Number of embedded applications.
    pub num_app: usize,
    /// Index of the application to run next.
    pub current_app: usize,
    /// Start address of each app, then the last app's end address.
    pub app_start: [usize; APP_START_CAP],
}

impl AppManager {
    /// Well-formed table: counts in range and byte ranges properly ordered.
    pub open spec fn wf(self) -> bool {
        &&& self.num_app <= MAX_APP_NUM
        &&& self.current_app <= self.num_app
        &&& forall|i: int| 0 <= i < self.num_app ==> #[trigger] self.app_start@[i] <= self.app_start@[i + 1]
    }

    /// Builds the table from the values read out of the packer's symbol.
    pub fn new(num_app: usize, app_start: [usize; APP_START_CAP]) -> (m: AppManager)
        requires
            num_app <= MAX_APP_NUM,
            forall|i: int| 0 <= i < num_app ==> #[trigger] app_start@[i] <= app_start@[i + 1],
        ensures
            m.wf(),
            m.num_app == num_app,
            m.current_app == 0,
            m.app_start@ == app_start@,
    {
        AppManager { num_app, current_app: 0, app_start }
    }

    /// The index of the application to run next.
    pub fn get_current_app(&self) -> (i: usize)
        ensures
            i == self.current_app,
    {
        self.current_app
    }

    /// Advances the cursor past the application just loaded.
    pub fn move_to_next_app(&mut self)
        requires
            old(self).current_app < old(self).num_app,
        ensures
            final(self).current_app == old(self).current_app + 1,
            final(self).num_app == old(self).num_app,
            final(self).app_start@ == old(self).app_start@,
    {
        self.current_app = self.current_app + 1;
    }

    /// The byte range `[start, end)` application `app_id` occupies in the
    /// kernel image, or `None` past the last application (all applications
    /// completed).
    pub fn app_range(&self, app_id: usize) -> (r: Option<(usize, usize)>)
        requires
            self.wf(),
        ensures
            match r {
                Some(se) => app_id < self.num_app && se.0 == self.app_start@[app_id as int]
                    && se.1 == self.app_start@[app_id as int + 1] && se.0 <= se.1,
                None => app_id >= self.num_app,
            },
    {
        if app_id >= self.num_app {
            None
        } else {
            Some((self.app_start[app_id], self.app_start[app_id + 1]))
        }
    }

    /// The table's description, one line per application, as emitted to the
    /// console at kernel init.
    pub fn log_app_info(&self, con: &mut Console)
        requires
            self.wf(),
        ensures
            final(con).bytes@ == old(con).bytes@ + ("num_app = ").spec_bytes() + spec_dec(
                self.num_app as nat,
            ) + seq![10u8] + spec_app_lines(*self, self.num_app as int),
    {
        let mut header: Vec<u8> = Vec::new();
        con.write_bytes("num_app = ".as_bytes());
        push_dec(&mut header, self.num_app as u64);
        header.push(10);
        con.write_bytes(header.as_slice());
        let ghost start = con.bytes@;
        let mut i: usize = 0;
        while i < self.num_app
            invariant
                self.wf(),
                i <= self.num_app,
                con.bytes@ == start + spec_app_lines(*self, i as int),
            decreases self.num_app - i,
        {
            let mut line: Vec<u8> = Vec::new();
            line.push(97);  // a
            line.push(112);  // p
            line.push(112);  // p
            line.push(95);  // _
            push_dec(&mut line, i as u64);
            line.push(32);  // space
            line.push(91);  // [
            push_hex(&mut line, self.app_start[i] as u64);
            line.push(44);  // comma
            line.push(32);  // space
            push_hex(&mut line, self.app_start[i + 1] as u64);
            line.push(93);  // ]
            line.push(10);
            con.write_bytes(line.as_slice());
            proof {
                assert(line@ =~= spec_app_line(*self, i as int));
                assert(con.bytes@ =~= start + spec_app_lines(*self, i as int + 1));
            }
            i = i + 1;
        }
        proof {
            assert(con.bytes@ =~= old(con).bytes@ + ("num_app = ").spec_bytes() + spec_dec(
                self.num_app as nat,
            ) + seq![10u8] + spec_app_lines(*self, self.num_app as int));
        }
    }
}

/// The console line describing application `i`: its index and its byte range
/// in the kernel image.
pub open spec fn spec_app_line(m: AppManager, i: int) -> Seq<u8> {
    seq![97u8, 112u8, 112u8, 95u8] + spec_dec(i as nat) + seq![32u8, 91u8] + spec_hex(
        m.app_start@[i] as nat,
    ) + seq![44u8, 32u8] + spec_hex(m.app_start@[i + 1] as nat) + seq![93u8, 10u8]
}

/// The concatenated description lines of the first `i` applications.
pub open spec fn spec_app_lines(m: AppManager, i: int) -> Seq<u8>
    decreases i,
{
    if i <= 0 {
        Seq::empty()
    } else {
        spec_app_lines(m, i - 1) + spec_app_line(m, i - 1)
    }
}

/// Emits the application table to the console, as the kernel does during
/// init.
pub fn init(mgr: &AppManager, con: &mut Console)
    requires
        mgr.wf(),
    ensures
        final(con).bytes@ == old(con).bytes@ + ("num_app = ").spec_bytes() + spec_dec(
            mgr.num_app as nat,
        ) + seq![10u8] + spec_app_lines(*mgr, mgr.num_app as int),
{
    mgr.log_app_info(con);
}

} // verus!
