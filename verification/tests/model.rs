use nvme_amz::{Error, Model};

fn padded(text: &[u8], pad: u8) -> [u8; 40] {
    let mut out = [pad; 40];
    out[..text.len()].copy_from_slice(text);
    out
}

#[test]
fn ebs_model_padded_to_the_field() {
    let mn = padded(b"Amazon Elastic Block Store", b' ');
    assert_eq!(Model::from_model_number(&mn), Ok(Model::AmazonElasticBlockStore));
}

#[test]
fn instance_store_model_padded_to_the_field() {
    let mn = padded(b"Amazon EC2 NVMe Instance Storage", b' ');
    assert_eq!(Model::from_model_number(&mn), Ok(Model::AmazonInstanceStore));
}

#[test]
fn model_without_padding() {
    assert_eq!(
        Model::from_model_number(b"Amazon Elastic Block Store"),
        Ok(Model::AmazonElasticBlockStore)
    );
    assert_eq!(
        Model::from_model_number(b"Amazon EC2 NVMe Instance Storage"),
        Ok(Model::AmazonInstanceStore)
    );
}

#[test]
fn model_with_any_number_of_spaces() {
    for count in 0..=14usize {
        let mut mn = b"Amazon Elastic Block Store".to_vec();
        mn.resize(26 + count, b' ');
        assert_eq!(Model::from_model_number(&mn), Ok(Model::AmazonElasticBlockStore));
    }
    for count in 0..=8usize {
        let mut mn = b"Amazon EC2 NVMe Instance Storage".to_vec();
        mn.resize(32 + count, b' ');
        assert_eq!(Model::from_model_number(&mn), Ok(Model::AmazonInstanceStore));
    }
}

#[test]
fn other_white_space_is_padding_too() {
    let mut mn = b"Amazon Elastic Block Store".to_vec();
    mn.extend_from_slice(&[0x09, 0x0a, 0x0b, 0x0c, 0x0d, 0x20, 0x85, 0xa0]);
    assert_eq!(Model::from_model_number(&mn), Ok(Model::AmazonElasticBlockStore));
}

#[test]
fn unknown_model_carries_the_trimmed_string() {
    let mn = padded(b"Some Other Disk", b' ');
    assert_eq!(
        Model::from_model_number(&mn),
        Err(Error::UnrecognizedModel(String::from("Some Other Disk")))
    );
}

#[test]
fn leading_space_is_kept() {
    let mn = padded(b" Amazon Elastic Block Store", b' ');
    assert_eq!(
        Model::from_model_number(&mn),
        Err(Error::UnrecognizedModel(String::from(" Amazon Elastic Block Store")))
    );
}

#[test]
fn matching_is_exact() {
    assert_eq!(
        Model::from_model_number(b"Amazon Elastic Block Stor"),
        Err(Error::UnrecognizedModel(String::from("Amazon Elastic Block Stor")))
    );
    assert_eq!(
        Model::from_model_number(b"amazon elastic block store"),
        Err(Error::UnrecognizedModel(String::from("amazon elastic block store")))
    );
    assert_eq!(
        Model::from_model_number(b"Amazon Elastic Block Store 2  "),
        Err(Error::UnrecognizedModel(String::from("Amazon Elastic Block Store 2")))
    );
}

#[test]
fn nul_is_no_padding() {
    let mn = padded(b"Amazon Elastic Block Store", 0);
    let mut expected = String::from("Amazon Elastic Block Store");
    for _ in 26..40 {
        expected.push('\0');
    }
    assert_eq!(Model::from_model_number(&mn), Err(Error::UnrecognizedModel(expected)));
}

#[test]
fn blank_model_is_unrecognized() {
    assert_eq!(
        Model::from_model_number(&[b' '; 40]),
        Err(Error::UnrecognizedModel(String::new()))
    );
    assert_eq!(Model::from_model_number(&[]), Err(Error::UnrecognizedModel(String::new())));
}
