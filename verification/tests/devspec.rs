//! What the text of an operator means.

use vmm::machine::devspec::{
    device_id, parse_ahci_cd_path, parse_blk_config, parse_console_config, parse_fs_config,
    parse_viona_config, parse_vsock_config, parts, split, VirtioBlockOpts, FS_QUEUE_SIZE_DEFAULT,
    FS_TAG_LEN,
};
use vmm::machine::parse::{find_lpc_device, parse_bdf};
use vmm::pci::Bdf;

#[test]
fn a_spec_is_identified_by_driver_and_slot() {
    assert_eq!(device_id("4,virtio-blk,/disk"), "virtio-blk@4");
    assert_eq!(device_id("0"), "0");
    assert_eq!(device_id("0,"), "0");
}

#[test]
fn split_needs_a_driver_and_a_bdf() {
    let (bdf, driver, config) =
        split("4,virtio-blk,/tmp/d.img,ro").expect("accepted");
    assert_eq!(bdf.dev(), 4);
    assert_eq!(driver, "virtio-blk");
    assert_eq!(config, "/tmp/d.img,ro");
    let (_, driver, config) = split("5,virtio-rnd").expect("accepted");
    assert_eq!((driver, config), ("virtio-rnd", ""));
    assert!(split("4").unwrap_err().to_text().contains("need slot"));
    assert!(split("notaslot,virtio-rnd")
        .unwrap_err()
        .to_text()
        .contains("invalid BDF"));
}

#[test]
fn blk_config_path_only() {
    let (path, opts) = parse_blk_config("/dev/zvol/rdsk/tank/disk0");
    assert_eq!(path, "/dev/zvol/rdsk/tank/disk0");
    assert!(!opts.read_only);
    assert_eq!(opts.sector_size, 512);
    assert_eq!(opts.num_queues, None);
}

#[test]
fn blk_config_options() {
    let (path, opts) = parse_blk_config(
        "/tmp/d.img,ro,nodelete,sectorsize=4096,num-queues=2",
    );
    assert_eq!(path, "/tmp/d.img");
    assert!(opts.read_only);
    assert!(opts.nodelete);
    assert_eq!(opts.sector_size, 4096);
    assert_eq!(opts.num_queues, Some(2));
}

#[test]
fn blk_config_rejects_out_of_range_values() {
    // Values outside the accepted range leave the defaults in place
    // rather than handing a bad geometry to the guest.
    let (_, opts) =
        parse_blk_config("/tmp/d.img,sectorsize=777,num-queues=99");
    assert_eq!(opts.sector_size, 512);
    assert_eq!(opts.num_queues, None);
}

#[test]
fn viona_config_splits_name_and_promisc() {
    assert_eq!(parse_viona_config("vnic0"), ("vnic0", false));
    assert_eq!(parse_viona_config("vnic0,promiscphys"), ("vnic0", true));
    assert_eq!(
        parse_viona_config("vnic0,promiscphys=true"),
        ("vnic0", true)
    );
    // An unknown option must not turn promiscuous mode on.
    assert_eq!(parse_viona_config("vnic0,mtu=9000"), ("vnic0", false));
}

#[test]
fn console_config_is_a_path_and_nothing_else() {
    let err = parse_console_config("").expect_err("empty must fail");
    assert_eq!(err.to_text(), "virtio-console requires a socket path");
    let err = parse_console_config("/tmp/c.sock,rw")
        .expect_err("option must fail");
    assert_eq!(
        err.to_text(),
        "virtio-console takes no options, got 'rw'"
    );
    // A trailing comma is a typo, not an empty option list.
    let err = parse_console_config("/tmp/c.sock,")
        .expect_err("trailing comma must fail");
    assert_eq!(err.to_text(), "virtio-console takes no options, got ''");
    assert_eq!(
        parse_console_config("/tmp/c.sock").expect("path"),
        "/tmp/c.sock"
    );
}

#[test]
fn vsock_config_needs_a_path_and_a_cid() {
    let (path, cid) = parse_vsock_config("/tmp/v.sock,cid=3").expect("ok");
    assert_eq!(path, "/tmp/v.sock");
    assert_eq!(cid, 3);
    assert!(parse_vsock_config("/tmp/v.sock").is_err());
}

/// 0, 1 and 2 are the hypervisor, loopback and host. A guest given
/// one of them would collide with the host's own address.
#[test]
fn vsock_config_rejects_a_reserved_cid() {
    for cid in [0, 1, 2] {
        assert!(
            parse_vsock_config(&format!("/tmp/v.sock,cid={cid}")).is_err(),
            "accepted reserved cid {cid}"
        );
    }
    assert!(parse_vsock_config("/tmp/v.sock,cid=3").is_ok());
}

#[test]
fn vsock_config_rejects_junk() {
    assert!(parse_vsock_config("").is_err());
    assert!(parse_vsock_config("/tmp/v.sock,cid=x").is_err());
    assert!(parse_vsock_config("/tmp/v.sock,cid=3,bogus").is_err());
    assert!(parse_vsock_config("/tmp/v.sock,tag=nope,cid=3").is_err());
}

#[test]
fn fs_config_requires_a_path() {
    let err = parse_fs_config("").expect_err("empty config");
    assert_eq!(err.to_text(), "virtio-fs requires a host directory path");
}

#[test]
fn fs_tag_defaults_to_the_last_path_component() {
    let opts = parse_fs_config("/export/shared").expect("parse");
    assert_eq!(opts.tag, "shared");
    assert_eq!(opts.path, "/export/shared");
    assert!(!opts.read_only);
    assert_eq!(opts.queue_size, FS_QUEUE_SIZE_DEFAULT);
}

#[test]
fn fs_options_are_parsed() {
    let opts = parse_fs_config("/export/x,tag=data,ro,queue-size=256")
        .expect("parse");
    assert_eq!(opts.tag, "data");
    assert!(opts.read_only);
    assert_eq!(opts.queue_size, 256);
}

#[test]
fn fs_oversized_tag_is_rejected() {
    let tag = "t".repeat(FS_TAG_LEN + 1);
    let err = parse_fs_config(&format!("/export/x,tag={tag}"))
        .expect_err("long tag");
    assert_eq!(
        err.to_text(),
        format!("virtio-fs tag '{tag}' exceeds {FS_TAG_LEN} bytes")
    );
}

#[test]
fn fs_out_of_range_queue_size_is_rejected() {
    let err =
        parse_fs_config("/export/x,queue-size=4").expect_err("too small");
    assert_eq!(
        err.to_text(),
        "virtio-fs queue-size must be 8..=1024, got 4"
    );
}

#[test]
fn fs_unknown_option_is_rejected() {
    let err = parse_fs_config("/export/x,dax").expect_err("unknown");
    assert_eq!(err.to_text(), "virtio-fs: unknown option 'dax'");
}

#[test]
fn ahci_cd_is_a_path_and_nothing_else() {
    let error = parse_ahci_cd_path("").unwrap_err();
    assert_eq!(error.to_text(), "ahci-cd requires an ISO path");
    let error = parse_ahci_cd_path("/x.iso,rw").unwrap_err();
    assert_eq!(error.to_text(), "ahci-cd takes no options, got 'rw'");
    assert_eq!(parse_ahci_cd_path("/x.iso").expect("path"), "/x.iso");
}

#[test]
fn parse_bdf_accepts_the_three_forms() {
    let dev = parse_bdf("4").expect("bare device number");
    assert_eq!((dev.bus(), dev.dev(), dev.func()), (0, 4, 0));

    let df = parse_bdf("4:2").expect("dev:func");
    assert_eq!((df.bus(), df.dev(), df.func()), (0, 4, 2));

    let bdf = parse_bdf("1:4:2").expect("bus:dev:func");
    assert_eq!((bdf.bus(), bdf.dev(), bdf.func()), (1, 4, 2));
}

#[test]
fn parse_bdf_rejects_out_of_range_and_garbage() {
    assert!(parse_bdf("32").is_none(), "device number max is 31");
    assert!(parse_bdf("0:0:8").is_none(), "function number max is 7");
    assert!(parse_bdf("1:2:3:4").is_none());
    assert!(parse_bdf("nvme").is_none());
    assert!(parse_bdf("").is_none());
}

#[test]
fn find_lpc_device_strips_the_device_prefix() {
    let args = vec![
        "bootrom,/usr/share/bhyve/BHYVE_UEFI.fd".to_string(),
        "com1,/dev/zconsole".to_string(),
    ];
    assert_eq!(
        find_lpc_device(&args, "com1"),
        Some("/dev/zconsole".to_string())
    );
    assert_eq!(find_lpc_device(&args, "com2"), None);
}

#[test]
fn a_bare_path_has_no_options() {
    let (path, opts) = parse_blk_config("/dev/zvol/rdsk/x");
    assert_eq!(path, "/dev/zvol/rdsk/x");
    assert_eq!(opts, VirtioBlockOpts::default());
}

#[test]
fn the_parts_of_a_spec_are_trimmed() {
    let p = parts(" 4 , virtio-blk ,/disk,ro");
    assert_eq!((p.slot, p.driver, p.config), ("4", "virtio-blk", "/disk,ro"));
}

#[test]
fn a_plus_sign_is_part_of_a_number() {
    assert_eq!(parse_bdf("+4"), Bdf::new(0, 4, 0));
    assert!(parse_bdf("-4").is_none());
    assert!(parse_bdf(" 4").is_none());
}

#[test]
fn the_first_lpc_flag_wins() {
    let args = vec!["com1,a".to_string(), "com1,b".to_string(), "com10,c".to_string()];
    assert_eq!(find_lpc_device(&args, "com1"), Some("a".to_string()));
    assert_eq!(find_lpc_device(&args, "com10"), Some("c".to_string()));
}
