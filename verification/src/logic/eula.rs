//! The end-user licence agreement and its version.

use vstd::prelude::*;

verus! {

/// The version of the agreement; a user who agreed to another version is
/// asked again.
pub const EULA_VERSION: u32 = 1;

pub const EULA_TEXT: &'static str = "Nitro End User License Agreement

By using Nitro, you agree to the following:

1. DISCLAIMER OF LIABILITY
   Nitro is provided \"as is\" without warranty of any kind, express or implied.
   In no event shall the author (kevinMEH) or Aerovato Research be liable for
   any damages arising from the use or inability to use this software.

2. ASSUMPTION OF RISK
   You assume full responsibility for any outcomes resulting from the use of
   this software, including but not limited to data loss, system damage, or
   any other consequences.

3. INDEMNIFICATION
   You agree to indemnify and hold harmless the author and Aerovato Research
   from any claims, damages, or expenses arising from your use of this software.

This agreement is governed by the principles of open source software licensing,
with additional exoneration clauses as stated above.";

} // verus!
