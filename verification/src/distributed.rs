//! Distributed launch: the single decision about whether a training run goes
//! under `torchrun`, and with what rendezvous.

use vstd::prelude::*;
use vstd::string::*;

use crate::text;
use crate::text::{add_text, decimal_text};

verus! {

/// Default for a process or node count: one.
pub fn one() -> (n: u32)
    ensures
        n == 1,
{
    1
}

/// Whether a count was left at its default of one.
///
/// Arguments are written into cache keys and plan identities. A count at its
/// default is left out there, so a run that never set one keeps its identity.
pub fn is_one(n: &u32) -> (r: bool)
    ensures
        r == (*n == 1),
{
    *n == 1
}

/// Rendezvous coordinates for a multi-node `torchrun` launch.
#[derive(Debug, PartialEq, Eq)]
pub struct Rendezvous {
    master_addr: String,
    master_port: String,
    node_rank: String,
}

/// The three coordinates as texts.
#[verifier::ext_equal]
pub struct RendezvousView {
    pub master_addr: Seq<char>,
    pub master_port: Seq<char>,
    pub node_rank: Seq<char>,
}

impl View for Rendezvous {
    type V = RendezvousView;

    closed spec fn view(&self) -> RendezvousView {
        RendezvousView {
            master_addr: self.master_addr@,
            master_port: self.master_port@,
            node_rank: self.node_rank@,
        }
    }
}

impl Clone for Rendezvous {
    fn clone(&self) -> (r: Self)
        ensures
            r@ == self@,
    {
        Rendezvous {
            master_addr: self.master_addr.clone(),
            master_port: self.master_port.clone(),
            node_rank: self.node_rank.clone(),
        }
    }
}

/// The environment variables a multi-node launch is described by, each where
/// it is set: `MASTER_ADDR`, `MASTER_PORT`, `NODE_RANK`.
pub struct RendezvousEnv {
    pub master_addr: Option<String>,
    pub master_port: Option<String>,
    pub node_rank: Option<String>,
}

/// What is said of a required variable that nobody set.
pub open spec fn missing_message(key: Seq<char>) -> Seq<char> {
    "multi-node training needs "@ + key
        + "; the Slurm launcher exports it, and a manual multi-node launch must set it on every node"@
}

fn missing(key: &str) -> (s: String)
    ensures
        s@ == missing_message(key@),
{
    "multi-node training needs ".to_string().concat(key).concat(
        "; the Slurm launcher exports it, and a manual multi-node launch must set it on every node",
    )
}

/// The rendezvous that an environment describes. The address and the rank have
/// no default; the port is 29500 where it is not set.
pub open spec fn rendezvous_of(env: RendezvousEnv) -> Result<RendezvousView, Seq<char>> {
    if env.master_addr is None {
        Err(missing_message("MASTER_ADDR"@))
    } else if env.node_rank is None {
        Err(missing_message("NODE_RANK"@))
    } else {
        Ok(
            RendezvousView {
                master_addr: env.master_addr->0@,
                master_port: match env.master_port {
                    Some(port) => port@,
                    None => "29500"@,
                },
                node_rank: env.node_rank->0@,
            },
        )
    }
}

impl Rendezvous {
    /// Builds a rendezvous from its coordinates.
    pub fn new(master_addr: &str, master_port: &str, node_rank: &str) -> (r: Self)
        ensures
            r@.master_addr == master_addr@,
            r@.master_port == master_port@,
            r@.node_rank == node_rank@,
    {
        Rendezvous {
            master_addr: master_addr.to_string(),
            master_port: master_port.to_string(),
            node_rank: node_rank.to_string(),
        }
    }

    /// Reads the rendezvous out of the launcher's environment.
    ///
    /// `MASTER_ADDR` and `NODE_RANK` are required: with a default every node
    /// would be its own coordinator of rank zero, and the world never forms.
    pub fn from_env(env: &RendezvousEnv) -> (r: Result<Rendezvous, String>)
        ensures
            match r {
                Ok(v) => rendezvous_of(*env) == Ok::<RendezvousView, Seq<char>>(v@),
                Err(e) => rendezvous_of(*env) == Err::<RendezvousView, Seq<char>>(e@),
            },
    {
        match &env.master_addr {
            None => Err(missing("MASTER_ADDR")),
            Some(master_addr) => match &env.node_rank {
                None => Err(missing("NODE_RANK")),
                Some(node_rank) => {
                    let master_port: &str = match &env.master_port {
                        Some(port) => port.as_str(),
                        None => "29500",
                    };
                    Ok(Rendezvous::new(master_addr.as_str(), master_port, node_rank.as_str()))
                },
            },
        }
    }
}

/// A count, read with zero as one.
pub open spec fn at_least_one(n: nat) -> nat {
    if n == 0 {
        1
    } else {
        n
    }
}

/// More than one process takes part in the run.
pub open spec fn is_distributed(nproc: nat, nnodes: nat) -> bool {
    at_least_one(nproc) * at_least_one(nnodes) > 1
}

/// The arguments behind `python` that put a run under `torchrun`.
pub open spec fn torchrun_flags(
    nproc: nat,
    nnodes: nat,
    rdzv: Option<RendezvousView>,
) -> Seq<Seq<char>> {
    match rdzv {
        None => seq![
            "-m"@,
            "torch.distributed.run"@,
            "--standalone"@,
            "--nproc_per_node"@,
            text::decimal(at_least_one(nproc)),
        ],
        Some(r) => seq![
            "-m"@,
            "torch.distributed.run"@,
            "--nnodes"@,
            text::decimal(at_least_one(nnodes)),
            "--nproc_per_node"@,
            text::decimal(at_least_one(nproc)),
            "--rdzv_backend"@,
            "c10d"@,
            "--rdzv_endpoint"@,
            r.master_addr + ":"@ + r.master_port,
            "--node_rank"@,
            r.node_rank,
        ],
    }
}

/// The `python` arguments that put a run under `torchrun`, or `None` when it
/// is a single process.
///
/// A run is distributed when `nproc * nnodes > 1`, counts of zero read as one.
/// On one node `--standalone` picks a free loopback port; it excludes the
/// explicit rendezvous flags.
pub fn torchrun_args(nproc: u32, nnodes: u32, rdzv: Option<&Rendezvous>) -> (r: Option<Vec<String>>)
    ensures
        r is Some <==> is_distributed(nproc as nat, nnodes as nat),
        r matches Some(args) ==> text::texts(args@) == torchrun_flags(
            nproc as nat,
            nnodes as nat,
            match rdzv {
                Some(v) => Some(v@),
                None => None,
            },
        ),
{
    let nproc1: u32 = if nproc == 0 {
        1
    } else {
        nproc
    };
    let nnodes1: u32 = if nnodes == 0 {
        1
    } else {
        nnodes
    };
    assert((nproc1 > 1 || nnodes1 > 1) <==> nproc1 * nnodes1 > 1) by (nonlinear_arith)
        requires
            nproc1 >= 1,
            nnodes1 >= 1,
    ;
    if nproc1 <= 1 && nnodes1 <= 1 {
        return None;
    }
    let mut args: Vec<String> = Vec::new();
    add_text(&mut args, "-m");
    add_text(&mut args, "torch.distributed.run");
    match rdzv {
        None => {
            add_text(&mut args, "--standalone");
            add_text(&mut args, "--nproc_per_node");
            add_text(&mut args, decimal_text(nproc1 as u64).as_str());
        },
        Some(r) => {
            add_text(&mut args, "--nnodes");
            add_text(&mut args, decimal_text(nnodes1 as u64).as_str());
            add_text(&mut args, "--nproc_per_node");
            add_text(&mut args, decimal_text(nproc1 as u64).as_str());
            add_text(&mut args, "--rdzv_backend");
            add_text(&mut args, "c10d");
            add_text(&mut args, "--rdzv_endpoint");
            let endpoint = r.master_addr.clone().concat(":").concat(r.master_port.as_str());
            add_text(&mut args, endpoint.as_str());
            add_text(&mut args, "--node_rank");
            add_text(&mut args, r.node_rank.as_str());
        },
    }
    Some(args)
}

/// The launch prefix of a run: nothing for a single process, the flags of
/// `torchrun` otherwise. A run across nodes takes the rendezvous from the
/// environment and fails where that is incomplete.
pub open spec fn prefix_of(nproc: nat, nnodes: nat, env: RendezvousEnv) -> Result<
    Seq<Seq<char>>,
    Seq<char>,
> {
    if nnodes > 1 {
        match rendezvous_of(env) {
            Ok(r) => Ok(torchrun_flags(nproc, nnodes, Some(r))),
            Err(e) => Err(e),
        }
    } else if nproc > 1 {
        Ok(torchrun_flags(nproc, nnodes, None))
    } else {
        Ok(Seq::empty())
    }
}

/// The launch prefix for `nproc` processes on each of `nnodes` nodes. The
/// rendezvous is read from `env` when the job spans more than one node.
pub fn launch_prefix(nproc: u32, nnodes: u32, env: &RendezvousEnv) -> (r: Result<
    Vec<String>,
    String,
>)
    ensures
        match r {
            Ok(args) => prefix_of(nproc as nat, nnodes as nat, *env) == Ok::<
                Seq<Seq<char>>,
                Seq<char>,
            >(text::texts(args@)),
            Err(e) => prefix_of(nproc as nat, nnodes as nat, *env) == Err::<
                Seq<Seq<char>>,
                Seq<char>,
            >(e@),
        },
{
    proof {
        lemma_distributed(nproc as nat, nnodes as nat);
    }
    if nnodes > 1 {
        let rdzv = match Rendezvous::from_env(env) {
            Ok(v) => v,
            Err(e) => {
                return Err(e);
            },
        };
        match torchrun_args(nproc, nnodes, Some(&rdzv)) {
            Some(args) => Ok(args),
            None => Ok(Vec::new()),
        }
    } else {
        match torchrun_args(nproc, nnodes, None) {
            Some(args) => Ok(args),
            None => {
                let none: Vec<String> = Vec::new();
                assert(text::texts(none@) =~= Seq::<Seq<char>>::empty());
                Ok(none)
            },
        }
    }
}

/// A run is distributed exactly when it has several processes on a node or
/// several nodes: one process on each of two nodes is a distributed run.
pub proof fn lemma_distributed(nproc: nat, nnodes: nat)
    ensures
        is_distributed(nproc, nnodes) <==> nproc > 1 || nnodes > 1,
{
    let a = at_least_one(nproc);
    let b = at_least_one(nnodes);
    assert((a > 1 || b > 1) <==> a * b > 1) by (nonlinear_arith)
        requires
            a >= 1,
            b >= 1,
    ;
}

/// A distributed run is launched under `torchrun`; a single process has no launch
/// prefix.
pub proof fn lemma_only_distributed_runs_go_under_torchrun(
    nproc: nat,
    nnodes: nat,
    env: RendezvousEnv,
)
    ensures
        prefix_of(nproc, nnodes, env) matches Ok(args) ==> if is_distributed(nproc, nnodes) {
            args.len() > 2 && args[0] == "-m"@ && args[1] == "torch.distributed.run"@
        } else {
            args.len() == 0
        },
{
    lemma_distributed(nproc, nnodes);
}

/// A run across nodes never carries `--standalone`, whatever the environment
/// holds: that flag is a one-node rendezvous and would override `--nnodes`.
///
/// Coordinates and counts that are themselves the text `--standalone` are
/// told apart by where they stand: the flags stand at the even places.
pub proof fn lemma_multi_node_never_standalone(nproc: nat, nnodes: nat, env: RendezvousEnv)
    requires
        nnodes > 1,
    ensures
        prefix_of(nproc, nnodes, env) matches Ok(args) ==> args.len() == 12 && forall|i: int|
            0 <= i < 6 ==> #[trigger] args[2 * i] != "--standalone"@,
{
    reveal_strlit("--standalone");
    reveal_strlit("-m");
    reveal_strlit("--nnodes");
    reveal_strlit("--nproc_per_node");
    reveal_strlit("--rdzv_backend");
    reveal_strlit("--rdzv_endpoint");
    reveal_strlit("--node_rank");
    match prefix_of(nproc, nnodes, env) {
        Ok(args) => {
            assert("-m"@.len() != "--standalone"@.len());
            assert("--nnodes"@.len() != "--standalone"@.len());
            assert("--nproc_per_node"@.len() != "--standalone"@.len());
            assert("--rdzv_backend"@.len() != "--standalone"@.len());
            assert("--rdzv_endpoint"@.len() != "--standalone"@.len());
            assert("--node_rank"@.len() != "--standalone"@.len());
            assert forall|i: int| 0 <= i < 6 implies #[trigger] args[2 * i] != "--standalone"@ by {
                assert(i == 0 || i == 1 || i == 2 || i == 3 || i == 4 || i == 5);
            }
        },
        Err(_) => {},
    }
}

/// A missing address or rank fails a run across nodes, and the message names
/// the variable; on one node the environment plays no part.
pub proof fn lemma_rendezvous_is_required_across_nodes(
    nproc: nat,
    nnodes: nat,
    env: RendezvousEnv,
    other: RendezvousEnv,
)
    ensures
        nnodes > 1 ==> (prefix_of(nproc, nnodes, env) is Err <==> env.master_addr is None
            || env.node_rank is None),
        nnodes <= 1 ==> prefix_of(nproc, nnodes, env) is Ok,
        nnodes <= 1 ==> prefix_of(nproc, nnodes, env) == prefix_of(nproc, nnodes, other),
{
}

/// `flag` stands among some arguments with `value` right behind it, and nowhere else
/// with something behind it.
pub open spec fn gives(args: Seq<Seq<char>>, flag: Seq<char>, value: Seq<char>) -> bool {
    exists|i: int|
        0 <= i < args.len() - 1 && #[trigger] args[i] == flag && args[i + 1] == value && forall|
            j: int,
        |
            0 <= j < args.len() - 1 && #[trigger] args[j] == flag ==> j == i
}

/// No two flags are the same text, a number is none of them, and neither is a text with
/// a colon in it.
proof fn lemma_flags_are_told_apart(n: nat, host: Seq<char>, port: Seq<char>, flag: Seq<char>)
    requires
        flag == "--nnodes"@ || flag == "--nproc_per_node"@ || flag == "--rdzv_backend"@ || flag
            == "--rdzv_endpoint"@ || flag == "--node_rank"@ || flag == "--standalone"@,
    ensures
        text::decimal(n) != flag,
        host + ":"@ + port != flag,
        "-m"@.len() == 2,
        "torch.distributed.run"@.len() == 21,
        "c10d"@.len() == 4,
        "--nnodes"@.len() == 8,
        "--nproc_per_node"@.len() == 16,
        "--rdzv_backend"@.len() == 14,
        "--rdzv_endpoint"@.len() == 15,
        "--node_rank"@.len() == 11,
        "--standalone"@.len() == 12,
{
    reveal_strlit("-m");
    reveal_strlit("torch.distributed.run");
    reveal_strlit("c10d");
    reveal_strlit(":");
    reveal_strlit("--nnodes");
    reveal_strlit("--nproc_per_node");
    reveal_strlit("--rdzv_backend");
    reveal_strlit("--rdzv_endpoint");
    reveal_strlit("--node_rank");
    reveal_strlit("--standalone");
    text::lemma_decimal_reads_back(n);
    assert(text::is_digit(text::decimal(n)[0]));
    assert(flag[0] == '-');
    let endpoint = host + ":"@ + port;
    assert(endpoint[host.len() as int] == ':');
    assert(forall|k: int| 0 <= k < flag.len() ==> #[trigger] flag[k] != ':');
}

/// A launch under `torchrun` gives the counts it was asked for, zero read as one, each
/// behind its flag. With a rendezvous it gives the coordinates too, and without one it
/// stands alone.
pub proof fn lemma_torchrun_is_given_the_counts(
    nproc: nat,
    nnodes: nat,
    rdzv: Option<RendezvousView>,
)
    ensures
        ({
            let args = torchrun_flags(nproc, nnodes, rdzv);
            &&& args.take(2) == seq!["-m"@, "torch.distributed.run"@]
            &&& gives(
                args,
                "--nproc_per_node"@,
                text::decimal(
                    if nproc == 0 {
                        1
                    } else {
                        nproc
                    },
                ),
            )
            &&& rdzv is None ==> args.contains("--standalone"@) && !args.contains("--nnodes"@)
                && !args.contains("--rdzv_endpoint"@) && !args.contains("--node_rank"@)
            &&& rdzv matches Some(r) ==> {
                &&& gives(
                    args,
                    "--nnodes"@,
                    text::decimal(
                        if nnodes == 0 {
                            1
                        } else {
                            nnodes
                        },
                    ),
                )
                &&& gives(args, "--rdzv_backend"@, "c10d"@)
                &&& gives(args, "--rdzv_endpoint"@, r.master_addr + ":"@ + r.master_port)
                &&& gives(args, "--node_rank"@, r.node_rank)
            }
        }),
{
    let args = torchrun_flags(nproc, nnodes, rdzv);
    let p = if nproc == 0 {
        1
    } else {
        nproc
    };
    let n = if nnodes == 0 {
        1
    } else {
        nnodes
    };
    assert(args.take(2) =~= seq!["-m"@, "torch.distributed.run"@]);
    match rdzv {
        None => {
            let none = Seq::<char>::empty();
            lemma_flags_are_told_apart(p, none, none, "--nproc_per_node"@);
            lemma_flags_are_told_apart(p, none, none, "--nnodes"@);
            lemma_flags_are_told_apart(p, none, none, "--rdzv_endpoint"@);
            lemma_flags_are_told_apart(p, none, none, "--node_rank"@);
            assert(args[2] == "--standalone"@);
            assert(args[3] == "--nproc_per_node"@ && args[4] == text::decimal(p));
        },
        Some(r) => {
            let host = r.master_addr;
            let port = r.master_port;
            lemma_flags_are_told_apart(n, host, port, "--nnodes"@);
            lemma_flags_are_told_apart(p, host, port, "--nnodes"@);
            lemma_flags_are_told_apart(n, host, port, "--nproc_per_node"@);
            lemma_flags_are_told_apart(p, host, port, "--nproc_per_node"@);
            lemma_flags_are_told_apart(n, host, port, "--rdzv_backend"@);
            lemma_flags_are_told_apart(p, host, port, "--rdzv_backend"@);
            lemma_flags_are_told_apart(n, host, port, "--rdzv_endpoint"@);
            lemma_flags_are_told_apart(p, host, port, "--rdzv_endpoint"@);
            lemma_flags_are_told_apart(n, host, port, "--node_rank"@);
            lemma_flags_are_told_apart(p, host, port, "--node_rank"@);
            assert(args[2] == "--nnodes"@ && args[3] == text::decimal(n));
            assert(args[4] == "--nproc_per_node"@ && args[5] == text::decimal(p));
            assert(args[6] == "--rdzv_backend"@ && args[7] == "c10d"@);
            assert(args[8] == "--rdzv_endpoint"@ && args[9] == host + ":"@ + port);
            assert(args[10] == "--node_rank"@ && args[11] == r.node_rank);
        },
    }
}

/// The launch prefix of a run across nodes gives the number of processes and of nodes it
/// was asked for, and the coordinates of the environment, each behind its flag.
pub proof fn lemma_a_launch_across_nodes_gives_its_counts(
    nproc: nat,
    nnodes: nat,
    env: RendezvousEnv,
)
    requires
        nnodes > 1,
        env.master_addr is Some,
        env.node_rank is Some,
    ensures
        prefix_of(nproc, nnodes, env) matches Ok(args) && {
            &&& gives(args, "--nnodes"@, text::decimal(nnodes))
            &&& gives(
                args,
                "--nproc_per_node"@,
                text::decimal(
                    if nproc == 0 {
                        1
                    } else {
                        nproc
                    },
                ),
            )
            &&& gives(args, "--rdzv_backend"@, "c10d"@)
            &&& gives(args, "--node_rank"@, env.node_rank->0@)
            &&& env.master_port matches Some(port) ==> gives(
                args,
                "--rdzv_endpoint"@,
                env.master_addr->0@ + ":"@ + port@,
            )
            &&& env.master_port is None ==> gives(
                args,
                "--rdzv_endpoint"@,
                env.master_addr->0@ + ":"@ + "29500"@,
            )
        },
{
    lemma_torchrun_is_given_the_counts(nproc, nnodes, Some(rendezvous_of(env)->Ok_0));
}

/// The launch prefix of several processes on one node gives their number, and no
/// rendezvous.
pub proof fn lemma_a_launch_on_one_node_stands_alone(nproc: nat, nnodes: nat, env: RendezvousEnv)
    requires
        nnodes <= 1,
        nproc > 1,
    ensures
        prefix_of(nproc, nnodes, env) matches Ok(args) && {
            &&& gives(args, "--nproc_per_node"@, text::decimal(nproc))
            &&& args.contains("--standalone"@)
            &&& !args.contains("--nnodes"@)
            &&& !args.contains("--rdzv_endpoint"@)
            &&& !args.contains("--node_rank"@)
        },
{
    lemma_torchrun_is_given_the_counts(nproc, nnodes, None);
}

proof fn lemma_what_is_given_is_one(
    args: Seq<Seq<char>>,
    flag: Seq<char>,
    a: Seq<char>,
    b: Seq<char>,
)
    requires
        gives(args, flag, a),
        gives(args, flag, b),
    ensures
        a == b,
{
}

/// Launches with other counts have other prefixes: what two runs across nodes, or two on
/// one node, are launched with tells how many processes and nodes each asked for.
pub proof fn lemma_other_counts_are_other_launches(
    nproc: nat,
    nnodes: nat,
    env: RendezvousEnv,
    other_nproc: nat,
    other_nnodes: nat,
    other_env: RendezvousEnv,
)
    requires
        prefix_of(nproc, nnodes, env) is Ok,
        prefix_of(nproc, nnodes, env) == prefix_of(other_nproc, other_nnodes, other_env),
    ensures
        nproc == other_nproc || (nproc <= 1 && other_nproc <= 1),
        nnodes == other_nnodes || (nnodes <= 1 && other_nnodes <= 1),
        nnodes > 1 ==> env.node_rank->0@ == other_env.node_rank->0@,
{
    let args = prefix_of(nproc, nnodes, env)->Ok_0;
    let p = if nproc == 0 {
        1
    } else {
        nproc
    };
    let q = if other_nproc == 0 {
        1
    } else {
        other_nproc
    };
    lemma_distributed(nproc, nnodes);
    lemma_distributed(other_nproc, other_nnodes);
    text::lemma_decimals_differ(p, q);
    text::lemma_decimals_differ(nnodes, other_nnodes);
    if nnodes > 1 {
        lemma_a_launch_across_nodes_gives_its_counts(nproc, nnodes, env);
    } else if nproc > 1 {
        lemma_a_launch_on_one_node_stands_alone(nproc, nnodes, env);
    }
    if other_nnodes > 1 {
        lemma_a_launch_across_nodes_gives_its_counts(other_nproc, other_nnodes, other_env);
    } else if other_nproc > 1 {
        lemma_a_launch_on_one_node_stands_alone(other_nproc, other_nnodes, other_env);
    }
    if args.len() > 0 {
        lemma_what_is_given_is_one(
            args,
            "--nproc_per_node"@,
            text::decimal(p),
            text::decimal(q),
        );
        if nnodes > 1 && other_nnodes > 1 {
            lemma_what_is_given_is_one(
                args,
                "--nnodes"@,
                text::decimal(nnodes),
                text::decimal(other_nnodes),
            );
            lemma_what_is_given_is_one(
                args,
                "--node_rank"@,
                env.node_rank->0@,
                other_env.node_rank->0@,
            );
        }
    }
}

/// What is said of an incomplete environment names the variable that is missing, the
/// address before the rank; a complete one is read as it is, with the port 29500 where
/// none is set.
pub proof fn lemma_an_environment_is_read_as_it_is(env: RendezvousEnv)
    ensures
        env.master_addr is None ==> (rendezvous_of(env) matches Err(e) && text::occurs_in(
            e,
            "MASTER_ADDR"@,
        )),
        env.master_addr is Some && env.node_rank is None ==> (rendezvous_of(env) matches Err(e)
            && text::occurs_in(e, "NODE_RANK"@)),
        env.master_addr is Some && env.node_rank is Some ==> (rendezvous_of(env) matches Ok(r)
            && r.master_addr == env.master_addr->0@ && r.node_rank == env.node_rank->0@ && (
        match env.master_port {
            Some(port) => r.master_port == port@,
            None => r.master_port == "29500"@,
        })),
{
    let before = "multi-node training needs "@;
    let after =
        "; the Slurm launcher exports it, and a manual multi-node launch must set it on every node"@;
    text::lemma_a_part_occurs(before, "MASTER_ADDR"@, after);
    text::lemma_a_part_occurs(before, "NODE_RANK"@, after);
}

} // verus!
