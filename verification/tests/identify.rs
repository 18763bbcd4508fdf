use nvme_amz::layout::{
    AdminCommand, IdentifyController, ADMIN_COMMAND_SIZE, BDEV_LEN, IDENTIFY_CNS_CONTROLLER,
    IDENTIFY_SIZE, MN_LEN, MN_OFFSET, NVME_ADMIN_IDENTIFY, NVME_IOCTL_ADMIN_CMD_NUM,
    NVME_IOCTL_GROUP, VID_OFFSET, VS_OFFSET,
};
use nvme_amz::nvme::AMZ_VENDOR_ID;
use nvme_amz::text::{string_of, to_chars};
use nvme_amz::{Error, Model, Names, Nvme, VendorId};

fn record(vid: u16, model: &[u8], name: &[u8]) -> [u8; 4096] {
    // Every byte that is not read is set to a value that would show if it were.
    let mut buf = [0xa5u8; 4096];
    buf[0] = (vid & 0xff) as u8;
    buf[1] = (vid >> 8) as u8;
    for b in buf[24..64].iter_mut() {
        *b = b' ';
    }
    buf[24..24 + model.len()].copy_from_slice(model);
    for b in buf[3072..3104].iter_mut() {
        *b = 0;
    }
    buf[3072..3072 + name.len()].copy_from_slice(name);
    buf
}

#[test]
fn layout_constants() {
    assert_eq!(IDENTIFY_SIZE, 4096);
    assert_eq!(VID_OFFSET, 0);
    assert_eq!(MN_OFFSET, 24);
    assert_eq!(MN_LEN, 40);
    assert_eq!(VS_OFFSET, 3072);
    assert_eq!(VS_OFFSET + 1024, IDENTIFY_SIZE);
    assert_eq!(BDEV_LEN, 32);
    assert_eq!(ADMIN_COMMAND_SIZE, 72);
    assert_eq!(NVME_ADMIN_IDENTIFY, 0x06);
    assert_eq!(NVME_IOCTL_GROUP, b'N');
    assert_eq!(NVME_IOCTL_ADMIN_CMD_NUM, 0x41);
    assert_eq!(IDENTIFY_CNS_CONTROLLER, 1);
    assert_eq!(AMZ_VENDOR_ID, 0x1D0F);
}

#[test]
fn decoding_recovers_the_fields_at_their_offsets() {
    let mut buf = [0u8; 4096];
    for (i, b) in buf.iter_mut().enumerate() {
        *b = (i % 251) as u8;
    }
    buf[0] = 0x0f;
    buf[1] = 0x1d;
    let ctrl = IdentifyController::from_bytes(&buf);
    assert_eq!(ctrl.vid, 0x1d0f);
    for i in 0..40 {
        assert_eq!(ctrl.mn[i], ((24 + i) % 251) as u8);
    }
    for i in 0..32 {
        assert_eq!(ctrl.bdev[i], ((3072 + i) % 251) as u8);
    }
}

#[test]
fn vendor_id_is_little_endian() {
    let mut buf = [0u8; 4096];
    buf[0] = 0x34;
    buf[1] = 0x12;
    assert_eq!(IdentifyController::from_bytes(&buf).vid, 0x1234);
    buf[0] = 0xff;
    buf[1] = 0xff;
    assert_eq!(IdentifyController::from_bytes(&buf).vid, 0xffff);
    buf[0] = 0x00;
    buf[1] = 0x01;
    assert_eq!(IdentifyController::from_bytes(&buf).vid, 256);
}

#[test]
fn neighbours_of_a_field_are_not_read() {
    let mut buf = [0u8; 4096];
    buf[23] = 0xee;
    buf[64] = 0xee;
    buf[3071] = 0xee;
    buf[3104] = 0xee;
    buf[2] = 0xee;
    let ctrl = IdentifyController::from_bytes(&buf);
    assert_eq!(ctrl.vid, 0);
    assert_eq!(ctrl.mn, [0u8; 40]);
    assert_eq!(ctrl.bdev, [0u8; 32]);
}

#[test]
fn identify_command_fields() {
    let cmd = AdminCommand::identify_controller(0xdead_beef_0000_1000);
    assert_eq!(cmd.opcode, 0x06);
    assert_eq!(cmd.cdw10, 1);
    assert_eq!(cmd.data_len, 4096);
    assert_eq!(cmd.addr, 0xdead_beef_0000_1000);
    assert_eq!(cmd.flags, 0);
    assert_eq!(cmd.rsvd1, 0);
    assert_eq!(cmd.nsid, 0);
    assert_eq!(cmd.cdw2, 0);
    assert_eq!(cmd.cdw3, 0);
    assert_eq!(cmd.metadata, 0);
    assert_eq!(cmd.metadata_len, 0);
    assert_eq!(cmd.cdw11, 0);
    assert_eq!(cmd.cdw12, 0);
    assert_eq!(cmd.cdw13, 0);
    assert_eq!(cmd.cdw14, 0);
    assert_eq!(cmd.cdw15, 0);
    assert_eq!(cmd.timeout_ms, 0);
    assert_eq!(cmd.result, 0);
}

#[test]
fn ebs_volume_is_identified() {
    let buf = record(0x1d0f, b"Amazon Elastic Block Store", b"/dev/sda1");
    let nvme = Nvme::from_query(Ok(&buf)).expect("an EBS volume");
    assert_eq!(nvme.model, Model::AmazonElasticBlockStore);
    assert_eq!(nvme.vendor_id, VendorId(0x1d0f));
    assert_eq!(nvme.names.device_name.as_deref(), Some("sda1"));
    assert_eq!(nvme.names.virtual_name, None);
    assert_eq!(nvme.name(), "sda1");
}

#[test]
fn instance_store_volume_is_identified() {
    let buf = record(0x1d0f, b"Amazon EC2 NVMe Instance Storage", b"ephemeral0:sdb");
    let nvme = Nvme::from_query(Ok(&buf)).expect("an instance store volume");
    assert_eq!(nvme.model, Model::AmazonInstanceStore);
    assert_eq!(nvme.names.device_name.as_deref(), Some("sdb"));
    assert_eq!(nvme.names.virtual_name.as_deref(), Some("ephemeral0"));
    assert_eq!(nvme.name(), "sdb");
}

#[test]
fn name_falls_back_to_the_virtual_name() {
    let buf = record(0x1d0f, b"Amazon EC2 NVMe Instance Storage", b"ephemeral1:none");
    let nvme = Nvme::from_query(Ok(&buf)).expect("an instance store volume");
    assert_eq!(nvme.names.device_name, None);
    assert_eq!(nvme.name(), "ephemeral1");
}

#[test]
fn name_prefers_the_device_name() {
    let nvme = Nvme {
        model: Model::AmazonInstanceStore,
        names: Names {
            device_name: Some(String::from("sdb")),
            virtual_name: Some(String::from("ephemeral0")),
        },
        vendor_id: VendorId(0x1d0f),
    };
    assert_eq!(nvme.name(), "sdb");
}

#[test]
fn name_is_the_virtual_name_without_a_device_name() {
    let nvme = Nvme {
        model: Model::AmazonInstanceStore,
        names: Names { device_name: None, virtual_name: Some(String::from("ephemeral0")) },
        vendor_id: VendorId(0x1d0f),
    };
    assert_eq!(nvme.name(), "ephemeral0");
}

#[test]
fn name_is_the_device_name_without_a_virtual_name() {
    let nvme = Nvme {
        model: Model::AmazonElasticBlockStore,
        names: Names { device_name: Some(String::from("sda1")), virtual_name: None },
        vendor_id: VendorId(0x1d0f),
    };
    assert_eq!(nvme.name(), "sda1");
}

#[test]
fn name_field_that_fills_its_32_bytes() {
    let buf = record(
        0x1d0f,
        b"Amazon EC2 NVMe Instance Storage",
        b"ephemeral0:/dev/sdbcdefghijklmno",
    );
    let nvme = Nvme::from_query(Ok(&buf)).expect("an instance store volume");
    assert_eq!(nvme.name(), "sdbcdefghijklmno");
}

#[test]
fn other_vendor_is_refused_first() {
    let buf = record(0x8086, b"Amazon Elastic Block Store", b"/dev/sda1");
    assert_eq!(Nvme::from_query(Ok(&buf)), Err(Error::UnrecognizedVendorId(0x8086)));
    let buf = record(0x1d0e, b"Unknown", b"");
    assert_eq!(Nvme::from_query(Ok(&buf)), Err(Error::UnrecognizedVendorId(0x1d0e)));
    let buf = record(0x0f1d, b"Amazon Elastic Block Store", b"/dev/sda1");
    assert_eq!(Nvme::from_query(Ok(&buf)), Err(Error::UnrecognizedVendorId(0x0f1d)));
}

#[test]
fn unknown_model_is_refused_before_the_names() {
    let buf = record(0x1d0f, b"Samsung SSD 970", b"");
    assert_eq!(
        Nvme::from_query(Ok(&buf)),
        Err(Error::UnrecognizedModel(String::from("Samsung SSD 970")))
    );
}

#[test]
fn known_model_without_a_name_is_refused() {
    let buf = record(0x1d0f, b"Amazon Elastic Block Store", b"");
    assert_eq!(
        Nvme::from_query(Ok(&buf)),
        Err(Error::UnparseableDeviceName(String::new()))
    );
}

#[test]
fn failed_query_gives_its_error_code() {
    assert_eq!(Nvme::from_query(Err(13)), Err(Error::Errno(13)));
    assert_eq!(Nvme::from_query(Err(25)), Err(Error::Errno(25)));
}

#[test]
fn from_controller_agrees_with_from_query() {
    let buf = record(0x1d0f, b"Amazon Elastic Block Store", b"xvdba");
    let ctrl = IdentifyController::from_bytes(&buf);
    assert_eq!(Nvme::from_controller(&ctrl), Nvme::from_query(Ok(&buf)));
    assert_eq!(Nvme::from_controller(&ctrl), Nvme::from_controller(&ctrl));
}

#[test]
fn chars_of_bytes() {
    assert_eq!(to_chars(&[0x41, 0x00, 0x20, 0xe9, 0xff]), vec!['A', '\0', ' ', '\u{e9}', '\u{ff}']);
    assert_eq!(to_chars(&[]), Vec::<char>::new());
}

#[test]
fn string_of_a_range() {
    let chars = ['a', 'b', 'c', 'd'];
    assert_eq!(string_of(&chars, 1, 3), "bc");
    assert_eq!(string_of(&chars, 0, 4), "abcd");
    assert_eq!(string_of(&chars, 2, 2), "");
}
