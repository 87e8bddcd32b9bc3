//! The `flake.nix` text for a composed environment.
use vstd::prelude::*;

use crate::dev_env::DevEnvironment;

verus! {

/// Everything before the build inputs.
pub const FLAKE_HEAD: &'static str = "{
  description = \"Development environment\";

  inputs.nixpkgs.url = \"github:NixOS/nixpkgs/nixpkgs-unstable\";
  inputs.flake-utils.url = \"github:numtide/flake-utils\";

  outputs = { self, nixpkgs, flake-utils }:
    flake-utils.lib.eachDefaultSystem (system:
      let
        pkgs = import nixpkgs { inherit system; };
        lib = pkgs.lib;
      in
      {
        devShells.default = with pkgs; mkShell {
          buildInputs = [ ";

/// Between the build inputs and the variables.
pub const FLAKE_MID: &'static str = " ];
";

/// Everything after the variables.
pub const FLAKE_TAIL: &'static str = "        };
      });
}
";

/// `s` joined by single spaces.
pub open spec fn words(s: Seq<String>) -> Seq<char>
    decreases s.len(),
{
    if s.len() == 0 {
        Seq::empty()
    } else if s.len() == 1 {
        s[0]@
    } else {
        words(s.drop_last()) + " "@ + s.last()@
    }
}

/// One line `"NAME" = "VALUE";` per variable, in order.
pub open spec fn env_lines(s: Seq<(String, String)>) -> Seq<char>
    decreases s.len(),
{
    if s.len() == 0 {
        Seq::empty()
    } else {
        env_lines(s.drop_last()) + "          \""@ + s.last().0@ + "\" = \""@ + s.last().1@ + "\";\n"@
    }
}

/// The library directories of `s`, joined by colons.
pub open spec fn lib_paths(s: Seq<String>) -> Seq<char>
    decreases s.len(),
{
    if s.len() == 0 {
        Seq::empty()
    } else if s.len() == 1 {
        "${lib.getLib "@ + s[0]@ + "}/lib"@
    } else {
        lib_paths(s.drop_last()) + ":${lib.getLib "@ + s.last()@ + "}/lib"@
    }
}

/// The `LD_LIBRARY_PATH` line, when there are runtime inputs.
pub open spec fn ld_line(s: Seq<String>) -> Seq<char> {
    if s.len() == 0 {
        Seq::empty()
    } else {
        "          \"LD_LIBRARY_PATH\" = \""@ + lib_paths(s) + "\";\n"@
    }
}

/// The whole `flake.nix` for an environment.
pub open spec fn flake_text(d: DevEnvironment) -> Seq<char> {
    FLAKE_HEAD@ + words(d.build_inputs@) + FLAKE_MID@ + env_lines(d.environment_variables@) + ld_line(
        d.runtime_inputs@,
    ) + FLAKE_TAIL@
}

fn append_words(r: &mut String, s: &Vec<String>)
    ensures
        final(r)@ == old(r)@ + words(s@),
{
    let ghost start = r@;
    let mut i: usize = 0;
    while i < s.len()
        invariant
            i <= s@.len(),
            r@ == start + words(s@.take(i as int)),
        decreases s@.len() - i,
    {
        assert(s@.take(i + 1).drop_last() =~= s@.take(i as int));
        assert(s@.take(i + 1).last() == s@[i as int]);
        if i > 0 {
            r.append(" ");
        } else {
            assert(s@.take(1)[0] == s@[0]);
        }
        r.append(s[i].as_str());
        assert(r@ =~= start + words(s@.take(i + 1)));
        i = i + 1;
    }
    assert(s@.take(i as int) =~= s@);
}

fn append_env_lines(r: &mut String, s: &Vec<(String, String)>)
    ensures
        final(r)@ == old(r)@ + env_lines(s@),
{
    let ghost start = r@;
    let mut i: usize = 0;
    while i < s.len()
        invariant
            i <= s@.len(),
            r@ == start + env_lines(s@.take(i as int)),
        decreases s@.len() - i,
    {
        assert(s@.take(i + 1).drop_last() =~= s@.take(i as int));
        assert(s@.take(i + 1).last() == s@[i as int]);
        r.append("          \"");
        r.append(s[i].0.as_str());
        r.append("\" = \"");
        r.append(s[i].1.as_str());
        r.append("\";\n");
        assert(r@ =~= start + env_lines(s@.take(i + 1)));
        i = i + 1;
    }
    assert(s@.take(i as int) =~= s@);
}

fn append_lib_paths(r: &mut String, s: &Vec<String>)
    ensures
        final(r)@ == old(r)@ + lib_paths(s@),
{
    let ghost start = r@;
    let mut i: usize = 0;
    while i < s.len()
        invariant
            i <= s@.len(),
            r@ == start + lib_paths(s@.take(i as int)),
        decreases s@.len() - i,
    {
        assert(s@.take(i + 1).drop_last() =~= s@.take(i as int));
        assert(s@.take(i + 1).last() == s@[i as int]);
        if i > 0 {
            r.append(":${lib.getLib ");
        } else {
            assert(s@.take(1)[0] == s@[0]);
            r.append("${lib.getLib ");
        }
        r.append(s[i].as_str());
        r.append("}/lib");
        assert(r@ =~= start + lib_paths(s@.take(i + 1)));
        i = i + 1;
    }
    assert(s@.take(i as int) =~= s@);
}

impl DevEnvironment {
    /// The `flake.nix` whose development shell has this environment: its
    /// build inputs, one attribute per variable, and `LD_LIBRARY_PATH`
    /// pointing at the library directories of its runtime inputs.
    pub fn to_flake(&self) -> (r: String)
        ensures
            r@ == flake_text(*self),
    {
        let mut r = FLAKE_HEAD.to_owned();
        append_words(&mut r, &self.build_inputs);
        r.append(FLAKE_MID);
        append_env_lines(&mut r, &self.environment_variables);
        if self.runtime_inputs.len() > 0 {
            r.append("          \"LD_LIBRARY_PATH\" = \"");
            append_lib_paths(&mut r, &self.runtime_inputs);
            r.append("\";\n");
        }
        r.append(FLAKE_TAIL);
        r
    }
}

} // verus!
