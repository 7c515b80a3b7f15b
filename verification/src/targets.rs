use vstd::prelude::*;
use crate::error::Error;
use crate::text::str_eq;

verus! {

/// A CPU/ABI combination the artifact can be cross-compiled for.
#[derive(Clone, Copy, PartialEq, Eq, Structural, Debug)]
pub enum Target {
    ArmV7a,
    Arm64V8a,
    X86,
    X86_64,
}

impl Target {
    /// The canonical toolchain triple for this architecture.
    pub open spec fn spec_rust_triple(&self) -> Seq<char> {
        match self {
            Target::ArmV7a => "armv7-linux-androideabi"@,
            Target::Arm64V8a => "aarch64-linux-android"@,
            Target::X86 => "i686-linux-android"@,
            Target::X86_64 => "x86_64-linux-android"@,
        }
    }

    pub fn rust_triple(&self) -> (r: &'static str)
        ensures
            r@ == self.spec_rust_triple(),
    {
        match self {
            Target::ArmV7a => "armv7-linux-androideabi",
            Target::Arm64V8a => "aarch64-linux-android",
            Target::X86 => "i686-linux-android",
            Target::X86_64 => "x86_64-linux-android",
        }
    }

    /// Parse a toolchain triple back into a target; any other triple is
    /// rejected as unsupported.
    pub fn from_rust_triple(triple: &str) -> (r: Result<Target, Error>)
        ensures
            r is Ok <==> (exists|t: Target| t.spec_rust_triple() == triple@),
            r is Ok ==> r->Ok_0.spec_rust_triple() == triple@,
            r is Err ==> (r->Err_0 matches Error::UnsupportedTarget(s) && s@ == triple@),
    {
        proof {
            reveal_strlit("armv7-linux-androideabi");
            reveal_strlit("aarch64-linux-android");
            reveal_strlit("i686-linux-android");
            reveal_strlit("x86_64-linux-android");
        }
        if str_eq(triple, "armv7-linux-androideabi") {
            proof {
                assert(Target::ArmV7a.spec_rust_triple() == triple@);
            }
            Ok(Target::ArmV7a)
        } else if str_eq(triple, "aarch64-linux-android") {
            proof {
                assert(Target::Arm64V8a.spec_rust_triple() == triple@);
            }
            Ok(Target::Arm64V8a)
        } else if str_eq(triple, "i686-linux-android") {
            proof {
                assert(Target::X86.spec_rust_triple() == triple@);
            }
            Ok(Target::X86)
        } else if str_eq(triple, "x86_64-linux-android") {
            proof {
                assert(Target::X86_64.spec_rust_triple() == triple@);
            }
            Ok(Target::X86_64)
        } else {
            proof {
                assert(forall|t: Target| t.spec_rust_triple() != triple@) by {
                    assert(Target::ArmV7a.spec_rust_triple() != triple@);
                    assert(Target::Arm64V8a.spec_rust_triple() != triple@);
                    assert(Target::X86.spec_rust_triple() != triple@);
                    assert(Target::X86_64.spec_rust_triple() != triple@);
                }
            }
            Err(Error::UnsupportedTarget(triple.to_owned()))
        }
    }
}

/// The active build targets of a session, resolved once, in order of
/// precedence: an explicit override, then the targets the package
/// declares, then the ABI detected on the connected device, then the
/// global 64-bit Arm fallback. The result is never empty.
pub fn resolve_build_targets(
    explicit: Option<Target>,
    declared: &Vec<Target>,
    detected: Option<Target>,
) -> (r: Vec<Target>)
    ensures
        r@.len() > 0,
        explicit is Some ==> r@ =~= seq![explicit->Some_0],
        explicit is None && declared@.len() > 0 ==> r@ == declared@,
        explicit is None && declared@.len() == 0 && detected is Some ==> r@ =~= seq![
            detected->Some_0,
        ],
        explicit is None && declared@.len() == 0 && detected is None ==> r@ =~= seq![
            Target::Arm64V8a,
        ],
{
    match explicit {
        Some(t) => {
            let mut r: Vec<Target> = Vec::new();
            r.push(t);
            r
        },
        None => {
            if declared.len() > 0 {
                let mut r: Vec<Target> = Vec::new();
                let mut i: usize = 0;
                while i < declared.len()
                    invariant
                        i <= declared.len(),
                        r@ == declared@.take(i as int),
                    decreases declared.len() - i,
                {
                    r.push(declared[i]);
                    proof {
                        assert(declared@.take(i + 1) =~= declared@.take(i as int).push(
                            declared@[i as int],
                        ));
                    }
                    i += 1;
                }
                proof {
                    assert(declared@.take(declared@.len() as int) =~= declared@);
                }
                r
            } else {
                let mut r: Vec<Target> = Vec::new();
                match detected {
                    Some(t) => r.push(t),
                    None => r.push(Target::Arm64V8a),
                }
                r
            }
        },
    }
}

} // verus!
