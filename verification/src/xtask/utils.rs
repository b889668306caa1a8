//! Whether a kind cluster or a registry container exists, read from the listings that
//! `kind get clusters` and `docker ps` print.
use crate::text::{has_line, lines_contain, push_str};
use crate::xtask::process::{CommandLine, CommandLineView};
use vstd::prelude::*;
use vstd::utf8::encode_utf8;

verus! {

/// The command that lists the kind clusters, one name a line.
pub open spec fn cluster_listing() -> CommandLineView {
    CommandLineView { program: "kind"@, args: seq!["get"@, "clusters"@], stdin: None }
}

/// The command that lists the running containers of a name, one name a line.
pub open spec fn registry_listing(registry_name: Seq<char>) -> CommandLineView {
    CommandLineView {
        program: "docker"@,
        args: seq!["ps"@, "-f"@, "name="@ + registry_name, "--format"@, "{{.Names}}"@],
        stdin: None,
    }
}

/// The command that lists the kind clusters.
pub fn list_clusters() -> (c: CommandLine)
    ensures
        c.deep_view() == cluster_listing(),
{
    let mut args: Vec<String> = Vec::new();
    push_str(&mut args, "get");
    push_str(&mut args, "clusters");
    let c = CommandLine { program: String::from_str("kind"), args, stdin: None };
    assert(c.deep_view().args =~= cluster_listing().args);
    c
}

/// The command that lists the running containers named after the registry.
pub fn list_registries(registry_name: &str) -> (c: CommandLine)
    ensures
        c.deep_view() == registry_listing(registry_name@),
{
    let mut args: Vec<String> = Vec::new();
    push_str(&mut args, "ps");
    push_str(&mut args, "-f");
    let filter = String::from_str("name=").concat(registry_name);
    let ghost before = args.deep_view();
    args.push(filter);
    assert(args.deep_view() =~= before.push("name="@ + registry_name@));
    push_str(&mut args, "--format");
    push_str(&mut args, "{{.Names}}");
    let c = CommandLine { program: String::from_str("docker"), args, stdin: None };
    assert(c.deep_view().args =~= registry_listing(registry_name@).args);
    c
}

/// Whether the listing of clusters has a line that is the name.
pub fn has_cluster(name: &str, listing: &[u8]) -> (b: bool)
    ensures
        b == has_line(listing@, encode_utf8(name@)),
{
    lines_contain(listing, name.as_bytes())
}

/// Whether the listing of containers has a line that is the registry's name.
pub fn has_registry_name(registry_name: &str, listing: &[u8]) -> (b: bool)
    ensures
        b == has_line(listing@, encode_utf8(registry_name@)),
{
    lines_contain(listing, registry_name.as_bytes())
}

} // verus!
