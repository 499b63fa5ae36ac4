//! Asking Windows to run the program again with administrator rights: the
//! command line handed to PowerShell or to the shell.
use vstd::prelude::*;

use crate::parse::texts;
use crate::startup::{replace, replace_spec};
use crate::text::push_str;

verus! {

/// `items` joined with `sep` between neighbours (`[T]::join`).
pub open spec fn joined(items: Seq<Seq<char>>, sep: Seq<char>) -> Seq<char>
    decreases items.len(),
{
    if items.len() == 0 {
        Seq::empty()
    } else if items.len() == 1 {
        items[0]
    } else {
        joined(items.drop_last(), sep) + sep + items.last()
    }
}

/// The texts of `items` joined with `sep`.
pub fn join_texts(items: &[String], sep: &str) -> (res: String)
    ensures
        res@ == joined(texts(items@), sep@),
{
    let mut s = String::new();
    let mut i: usize = 0;
    while i < items.len()
        invariant
            i <= items@.len(),
            s@ == joined(texts(items@.take(i as int)), sep@),
        decreases items@.len() - i,
    {
        let ghost before = texts(items@.take(i as int));
        assert(texts(items@.take(i + 1)).drop_last() =~= before);
        if i > 0 {
            push_str(&mut s, sep);
        }
        push_str(&mut s, items[i].as_str());
        i = i + 1;
        proof {
            let now = texts(items@.take(i as int));
            assert(now.last() == items@[i - 1]@);
            if i == 1 {
                assert(before.len() == 0);
                assert(s@ =~= now[0]);
            }
        }
    }
    assert(items@.take(i as int) =~= items@);
    s
}

/// An argument as a PowerShell string literal: between single quotes, each
/// single quote in it doubled.
pub open spec fn ps_quoted(a: Seq<char>) -> Seq<char> {
    "'"@ + replace_spec(a, "'"@, "''"@) + "'"@
}

/// The arguments, each quoted for PowerShell.
pub open spec fn all_quoted(args: Seq<Seq<char>>) -> Seq<Seq<char>> {
    args.map_values(|a: Seq<char>| ps_quoted(a))
}

/// The PowerShell command that starts the program at `exe` again with the
/// arguments `args`, asking for administrator rights.
pub open spec fn elevation_command_spec(exe: Seq<char>, args: Seq<Seq<char>>) -> Seq<char> {
    "Start-Process -FilePath '"@ + exe + "' -ArgumentList @("@ + joined(all_quoted(args), ","@)
        + ") -Verb RunAs"@
}

/// `a` quoted for PowerShell.
pub fn quote_for_powershell(a: &str) -> (res: String)
    ensures
        res@ == ps_quoted(a@),
{
    proof {
        reveal_strlit("'");
    }
    let mut s = "'".to_owned();
    let inner = replace(a, "'", "''");
    push_str(&mut s, inner.as_str());
    push_str(&mut s, "'");
    s
}

/// The PowerShell command that restarts the program at `exe` with `args`
/// as administrator.
pub fn elevation_command(exe: &str, args: &[String]) -> (res: String)
    ensures
        res@ == elevation_command_spec(exe@, texts(args@)),
{
    let mut quoted: Vec<String> = Vec::new();
    let mut i: usize = 0;
    while i < args.len()
        invariant
            i <= args@.len(),
            quoted@.len() == i,
            forall|k: int| 0 <= k < i ==> #[trigger] quoted@[k]@ == ps_quoted(args@[k]@),
        decreases args@.len() - i,
    {
        quoted.push(quote_for_powershell(args[i].as_str()));
        i = i + 1;
    }
    assert(texts(quoted@) =~= all_quoted(texts(args@)));
    let mut s = "Start-Process -FilePath '".to_owned();
    push_str(&mut s, exe);
    push_str(&mut s, "' -ArgumentList @(");
    let list = join_texts(quoted.as_slice(), ",");
    push_str(&mut s, list.as_str());
    push_str(&mut s, ") -Verb RunAs");
    s
}

} // verus!
