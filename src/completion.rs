//! The fish shell completion script, which offers the subcommands and the
//! registered site names.
use vstd::prelude::*;

verus! {

/// The script up to the first list of site names.
pub const FISH_HEAD: &'static str = "# Fish completion for wauth\ncomplete -f -c wauth -n \"__fish_use_subcommand\" -a \"add\" -d \"Add new TOTP secret for a site\"\ncomplete -f -c wauth -n \"__fish_use_subcommand\" -a \"delete\" -d \"Delete TOTP secret for a site\"\ncomplete -f -c wauth -n \"__fish_use_subcommand\" -a \"list\" -d \"List all registered sites\"\ncomplete -f -c wauth -n \"not __fish_seen_subcommand_from add delete list\" -a \"";

/// The script between the two lists of site names.
pub const FISH_MIDDLE: &'static str = "\" -d \"Site name\"\ncomplete -f -c wauth -n \"__fish_seen_subcommand_from delete\" -a \"";

/// The script after the second list of site names.
pub const FISH_TAIL: &'static str = "\" -d \"Site to delete\"\ncomplete -f -c wauth -l profile -d \"Specify AWS profile\" -r\n";

/// The names, in order, separated by single spaces.
pub open spec fn joined_with_spaces(names: Seq<Seq<char>>) -> Seq<char>
    decreases names.len(),
{
    if names.len() == 0 {
        Seq::empty()
    } else if names.len() == 1 {
        names[0]
    } else {
        joined_with_spaces(names.drop_last()) + seq![' '] + names.last()
    }
}

/// The names of `sites` as sequences of characters.
pub open spec fn names_of(sites: Seq<String>) -> Seq<Seq<char>> {
    sites.map_values(|s: String| s@)
}

/// The whole completion script for the site names `names`.
pub open spec fn fish_script(names: Seq<Seq<char>>) -> Seq<char> {
    FISH_HEAD@ + joined_with_spaces(names) + FISH_MIDDLE@ + joined_with_spaces(names) + FISH_TAIL@
}

/// The site names separated by single spaces.
pub fn join_site_names(sites: &Vec<String>) -> (r: String)
    ensures
        r@ == joined_with_spaces(names_of(sites@)),
{
    let ghost names = names_of(sites@);
    let mut out = String::new();
    let mut i: usize = 0;
    while i < sites.len()
        invariant
            names == names_of(sites@),
            i <= sites@.len(),
            out@ == joined_with_spaces(names.take(i as int)),
        decreases sites@.len() - i,
    {
        assert(names.take(i + 1).drop_last() =~= names.take(i as int));
        if i > 0 {
            out.append(" ");
            proof {
                reveal_strlit(" ");
            }
        }
        out.append(sites[i].as_str());
        i = i + 1;
        assert(out@ =~= joined_with_spaces(names.take(i as int)));
    }
    assert(names.take(sites@.len() as int) =~= names);
    out
}

/// The fish completion script that offers `sites` as site names.
pub fn fish_completion_script(sites: &Vec<String>) -> (r: String)
    ensures
        r@ == fish_script(names_of(sites@)),
{
    let names = join_site_names(sites);
    let mut out = String::from_str(FISH_HEAD);
    out.append(names.as_str());
    out.append(FISH_MIDDLE);
    out.append(names.as_str());
    out.append(FISH_TAIL);
    out
}

} // verus!
