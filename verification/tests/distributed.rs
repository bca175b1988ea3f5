use blut_cookbooks::distributed::{
    is_one, launch_prefix, one, torchrun_args, Rendezvous, RendezvousEnv,
};

fn nothing_set() -> RendezvousEnv {
    RendezvousEnv { master_addr: None, master_port: None, node_rank: None }
}

fn all_set() -> RendezvousEnv {
    RendezvousEnv {
        master_addr: Some("10.0.0.1".to_string()),
        master_port: Some("12345".to_string()),
        node_rank: Some("1".to_string()),
    }
}

#[test]
fn one_process_on_each_of_two_nodes_still_goes_under_torchrun() {
    let rdzv = Rendezvous::new("10.0.0.1", "29500", "1");
    let args = torchrun_args(1, 2, Some(&rdzv)).expect("2 nodes is a distributed run");
    assert_eq!(&args[..2], &["-m", "torch.distributed.run"]);
    assert!(args.windows(2).any(|w| w == ["--nnodes", "2"]));
    assert!(args.windows(2).any(|w| w == ["--node_rank", "1"]));
    assert!(args.windows(2).any(|w| w == ["--rdzv_endpoint", "10.0.0.1:29500"]));
}

#[test]
fn multi_node_never_passes_standalone() {
    let rdzv = Rendezvous::new("10.0.0.1", "29500", "0");
    for (nproc, nnodes) in [(1, 2), (2, 2), (4, 8)] {
        let args = torchrun_args(nproc, nnodes, Some(&rdzv)).unwrap();
        assert!(
            !args.iter().any(|a| a == "--standalone"),
            "--standalone leaked into a {nnodes}-node launch: {args:?}"
        );
    }
}

#[test]
fn single_node_multi_gpu_uses_standalone_and_no_endpoint() {
    let args = torchrun_args(4, 1, None).unwrap();
    assert!(args.iter().any(|a| a == "--standalone"));
    assert!(args.windows(2).any(|w| w == ["--nproc_per_node", "4"]));
    assert!(!args.iter().any(|a| a == "--rdzv_endpoint"));
}

#[test]
fn a_single_process_is_not_launched_under_torchrun() {
    assert_eq!(torchrun_args(1, 1, None), None);
    assert_eq!(torchrun_args(0, 0, None), None);
}

#[test]
fn zero_nproc_across_several_nodes_is_still_distributed() {
    let rdzv = Rendezvous::new("10.0.0.1", "29500", "0");
    let args = torchrun_args(0, 2, Some(&rdzv)).expect("still two nodes");
    assert!(args.windows(2).any(|w| w == ["--nproc_per_node", "1"]));
}

#[test]
fn rendezvous_formats_the_endpoint_as_host_colon_port() {
    let args = torchrun_args(1, 2, Some(&Rendezvous::new("node0.local", "12345", "0"))).unwrap();
    let i = args.iter().position(|a| a == "--rdzv_endpoint").unwrap();
    assert_eq!(args[i + 1], "node0.local:12345");
}

#[test]
fn the_flags_stand_in_their_order() {
    assert_eq!(
        torchrun_args(4, 1, None).unwrap(),
        ["-m", "torch.distributed.run", "--standalone", "--nproc_per_node", "4"]
    );
    assert_eq!(
        torchrun_args(2, 3, Some(&Rendezvous::new("h", "1", "2"))).unwrap(),
        [
            "-m",
            "torch.distributed.run",
            "--nnodes",
            "3",
            "--nproc_per_node",
            "2",
            "--rdzv_backend",
            "c10d",
            "--rdzv_endpoint",
            "h:1",
            "--node_rank",
            "2",
        ]
    );
}

#[test]
fn the_largest_counts_are_distributed() {
    let args = torchrun_args(u32::MAX, 1, None).unwrap();
    assert_eq!(args[4], "4294967295");
    assert!(torchrun_args(65536, 65536, None).is_some());
}

#[test]
fn the_environment_gives_the_coordinates() {
    assert_eq!(
        Rendezvous::from_env(&all_set()).unwrap(),
        Rendezvous::new("10.0.0.1", "12345", "1")
    );
    let mut env = all_set();
    env.master_port = None;
    assert_eq!(
        Rendezvous::from_env(&env).unwrap(),
        Rendezvous::new("10.0.0.1", "29500", "1")
    );
}

#[test]
fn a_missing_coordinate_is_named() {
    let mut env = all_set();
    env.master_addr = None;
    assert!(Rendezvous::from_env(&env).unwrap_err().contains("MASTER_ADDR"));
    let mut env = all_set();
    env.node_rank = None;
    assert_eq!(
        Rendezvous::from_env(&env).unwrap_err(),
        "multi-node training needs NODE_RANK; the Slurm launcher exports it, and a manual multi-node launch must set it on every node"
    );
    assert!(Rendezvous::from_env(&nothing_set()).unwrap_err().contains("MASTER_ADDR"));
}

#[test]
fn only_a_run_across_nodes_reads_the_environment() {
    assert_eq!(launch_prefix(1, 1, &nothing_set()), Ok(vec![]));
    assert_eq!(launch_prefix(0, 0, &nothing_set()), Ok(vec![]));
    assert_eq!(launch_prefix(2, 1, &nothing_set()).unwrap()[2], "--standalone");
    assert!(launch_prefix(1, 2, &nothing_set()).is_err());
    let prefix = launch_prefix(1, 2, &all_set()).unwrap();
    assert_eq!(prefix.len(), 12);
    assert_eq!(prefix[9], "10.0.0.1:12345");
}

#[test]
fn the_default_count_is_one() {
    assert_eq!(one(), 1);
    assert!(is_one(&1));
    assert!(!is_one(&0));
    assert!(!is_one(&2));
}
