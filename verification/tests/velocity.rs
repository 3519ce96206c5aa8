use limbo::player::profile::Property;
use limbo::player::skin::{PlayerSkin, SkinLayers};
use limbo::utils::buf::BufReadError;
use limbo::utils::velocity::{
    check_signature, find_skin_data, forwarding_version_bytes, parse_forwarding_message,
    read_property, verify, verify_forwarding_info, ForwardingInfo, VelocityError, FORWARDING_VERSION, SIGNATURE_LENGTH, VELOCITY_CHANNEL,
};

const SECRET: &[u8] = b"correct horse battery staple";
const ID: u128 = 0x6536bfed869548fd83a1ecd24cf2a0fd;

fn put_varint(buf: &mut Vec<u8>, value: i32) {
    let mut v = value as u32;
    loop {
        if v < 0x80 {
            buf.push(v as u8);
            return;
        }
        buf.push((v & 0x7f) as u8 | 0x80);
        v >>= 7;
    }
}

fn put_string(buf: &mut Vec<u8>, text: &str) {
    put_varint(buf, text.len() as i32);
    buf.extend_from_slice(text.as_bytes());
}

fn put_property(buf: &mut Vec<u8>, name: &str, value: &str, signature: Option<&str>) {
    put_string(buf, name);
    put_string(buf, value);
    match signature {
        Some(s) => {
            buf.push(1);
            put_string(buf, s);
        }
        None => buf.push(0),
    }
}

fn message_with(version: i32, addr: &str, name: &str, properties: &[(&str, &str, Option<&str>)]) -> Vec<u8> {
    let mut buf = Vec::new();
    put_varint(&mut buf, version);
    put_string(&mut buf, addr);
    buf.extend_from_slice(&ID.to_be_bytes());
    put_string(&mut buf, name);
    put_varint(&mut buf, properties.len() as i32);
    for (n, v, s) in properties {
        put_property(&mut buf, n, v, *s);
    }
    buf
}

fn signed(message: &[u8], secret: &[u8]) -> Vec<u8> {
    let mut payload = hmac_sha256::HMAC::mac(message, secret).to_vec();
    payload.extend_from_slice(message);
    payload
}

fn skin(texture: &str, signature: &str) -> PlayerSkin {
    PlayerSkin {
        texture: texture.to_string(),
        signature: signature.to_string(),
        layers: SkinLayers::default(),
    }
}

#[test]
fn forwarding_constants() {
    assert_eq!(VELOCITY_CHANNEL, "velocity:player_info");
    assert_eq!(FORWARDING_VERSION, 1);
    assert_eq!(SIGNATURE_LENGTH, 32);
    assert_eq!(forwarding_version_bytes(), vec![1]);
}

#[test]
fn signed_payload_verifies_and_gives_back_what_was_written() {
    let message = message_with(
        1,
        "203.0.113.9:51234",
        "Alex",
        &[("textures", "dGV4", Some("c2ln"))],
    );
    let info = verify_forwarding_info(&signed(&message, SECRET), SECRET).unwrap();
    assert_eq!(
        info,
        ForwardingInfo {
            addr: "203.0.113.9:51234".to_string(),
            name: "Alex".to_string(),
            uuid: ID,
            skin: Some(skin("dGV4", "c2ln")),
        }
    );
    assert_eq!(info.addr, "203.0.113.9:51234");
}

#[test]
fn payload_without_properties_has_no_skin() {
    let message = message_with(1, "[2001:db8::1]:25565", "Sam", &[]);
    let info = verify_forwarding_info(&signed(&message, SECRET), SECRET).unwrap();
    assert_eq!(info.name, "Sam");
    assert_eq!(info.uuid, ID);
    assert_eq!(info.skin, None);
    assert_eq!(info.addr, "[2001:db8::1]:25565");
}

#[test]
fn payload_signed_with_another_secret_is_a_signature_mismatch() {
    let message = message_with(1, "203.0.113.9:51234", "Alex", &[]);
    assert_eq!(
        verify_forwarding_info(&signed(&message, SECRET), b"another secret"),
        Err(VelocityError::InvalidSignature)
    );
    assert_eq!(
        verify_forwarding_info(&signed(&message, b""), SECRET),
        Err(VelocityError::InvalidSignature)
    );
}

#[test]
fn payload_that_was_changed_is_a_signature_mismatch() {
    let message = message_with(1, "203.0.113.9:51234", "Alex", &[]);
    let good = signed(&message, SECRET);
    for at in [0, 31, 32, good.len() - 1] {
        let mut bad = good.clone();
        bad[at] ^= 0x01;
        assert_eq!(verify_forwarding_info(&bad, SECRET), Err(VelocityError::InvalidSignature));
    }
}

#[test]
fn payload_of_32_bytes_or_fewer_is_too_short() {
    assert_eq!(verify_forwarding_info(&[], SECRET), Err(VelocityError::InvalidSignatureLength));
    assert_eq!(
        verify_forwarding_info(&[0u8; 31], SECRET),
        Err(VelocityError::InvalidSignatureLength)
    );
    let empty_signed = signed(&[], SECRET);
    assert_eq!(empty_signed.len(), 32);
    assert_eq!(
        verify_forwarding_info(&empty_signed, SECRET),
        Err(VelocityError::InvalidSignatureLength)
    );
    assert_eq!(verify(&[0u8; 32], SECRET), Err(VelocityError::InvalidSignatureLength));
}

#[test]
fn payload_of_33_bytes_is_checked_for_its_signature() {
    assert_eq!(verify_forwarding_info(&[0u8; 33], SECRET), Err(VelocityError::InvalidSignature));
    let one = signed(&[0x01], SECRET);
    assert_eq!(verify(&one, SECRET), Ok(&[0x01u8][..]));
}

#[test]
fn signature_check_compares_with_the_given_code() {
    let mut data = vec![7u8; 32];
    data.extend_from_slice(b"message");
    assert_eq!(check_signature(&data, &[7u8; 32]), Ok(&b"message"[..]));
    let mut other = [7u8; 32];
    other[31] = 8;
    assert_eq!(check_signature(&data, &other), Err(VelocityError::InvalidSignature));
    other = [7u8; 32];
    other[0] = 0;
    assert_eq!(check_signature(&data, &other), Err(VelocityError::InvalidSignature));
    assert_eq!(check_signature(&[7u8; 32], &[7u8; 32]), Err(VelocityError::InvalidSignatureLength));
}

#[test]
fn verify_hands_out_the_message_behind_a_good_signature() {
    let payload = signed(b"the message", SECRET);
    assert_eq!(verify(&payload, SECRET), Ok(&b"the message"[..]));
    assert_eq!(verify(&payload, b"x"), Err(VelocityError::InvalidSignature));
}

#[test]
fn other_versions_are_unsupported() {
    for version in [0, 2, 257, -1] {
        let message = message_with(version, "203.0.113.9:51234", "Alex", &[]);
        assert_eq!(
            verify_forwarding_info(&signed(&message, SECRET), SECRET),
            Err(VelocityError::UnsupportedVersion(version))
        );
    }
}

#[test]
fn address_comes_out_as_the_proxy_wrote_it() {
    for addr in ["203.0.113.9", "example.org:25565", "", "[0:0:0:0:0:0:0:1]:7"] {
        let message = message_with(1, addr, "Alex", &[("textures", "t", None)]);
        let info = verify_forwarding_info(&signed(&message, SECRET), SECRET).unwrap();
        assert_eq!(info.addr, addr);
        assert_eq!(info.skin, Some(skin("t", "")));
    }
}

#[test]
fn message_that_ends_early_is_malformed() {
    let message = message_with(1, "203.0.113.9:51234", "Alex", &[("textures", "t", Some("s"))]);
    for len in 1..message.len() {
        let outcome = verify_forwarding_info(&signed(&message[..len], SECRET), SECRET);
        assert!(matches!(outcome, Err(VelocityError::Read(_))), "at {len}: {outcome:?}");
    }
}

#[test]
fn message_that_ends_inside_a_string_says_how_much_is_missing() {
    let mut message = Vec::new();
    put_varint(&mut message, 1);
    put_varint(&mut message, 10);
    message.extend_from_slice(b"1.2.3");
    assert_eq!(
        parse_forwarding_message(&message),
        Err(VelocityError::Read(BufReadError::UnexpectedEof { attempted_read: 10, actual_read: 5 }))
    );
}

#[test]
fn name_that_is_not_utf8_is_malformed() {
    let mut message = Vec::new();
    put_varint(&mut message, 1);
    put_string(&mut message, "203.0.113.9:51234");
    message.extend_from_slice(&ID.to_be_bytes());
    message.extend_from_slice(&[0x02, 0xc3, 0x28]);
    put_varint(&mut message, 0);
    assert_eq!(
        verify_forwarding_info(&signed(&message, SECRET), SECRET),
        Err(VelocityError::Read(BufReadError::InvalidUtf8))
    );
}

#[test]
fn first_textures_property_is_the_skin() {
    let message = message_with(
        1,
        "203.0.113.9:51234",
        "Alex",
        &[
            ("cape", "c", Some("cs")),
            ("textures", "first", None),
            ("textures", "second", Some("sig")),
        ],
    );
    let info = parse_forwarding_message(&message).unwrap();
    assert_eq!(
        info,
        ForwardingInfo {
            addr: "203.0.113.9:51234".to_string(),
            name: "Alex".to_string(),
            uuid: ID,
            skin: Some(skin("first", "")),
        }
    );
}

#[test]
fn properties_without_textures_give_no_skin() {
    let message = message_with(
        1,
        "203.0.113.9:51234",
        "Alex",
        &[("cape", "c", Some("cs")), ("Textures", "t", None)],
    );
    assert_eq!(parse_forwarding_message(&message).unwrap().skin, None);
}

#[test]
fn what_follows_the_skin_is_not_read() {
    let mut message = message_with(1, "203.0.113.9:51234", "Alex", &[]);
    message.pop();
    put_varint(&mut message, 5);
    put_property(&mut message, "textures", "t", Some("s"));
    message.extend_from_slice(&[0xff, 0xff, 0xff]);
    assert_eq!(parse_forwarding_message(&message).unwrap().skin, Some(skin("t", "s")));
}

#[test]
fn announced_properties_that_are_missing_are_malformed() {
    let mut message = message_with(1, "203.0.113.9:51234", "Alex", &[]);
    message.pop();
    put_varint(&mut message, 2);
    put_property(&mut message, "cape", "c", None);
    assert_eq!(parse_forwarding_message(&message), Err(VelocityError::Read(BufReadError::Io)));
}

#[test]
fn negative_property_count_means_no_properties() {
    let mut message = message_with(1, "203.0.113.9:51234", "Alex", &[]);
    message.pop();
    put_varint(&mut message, -1);
    put_property(&mut message, "textures", "t", None);
    assert_eq!(parse_forwarding_message(&message).unwrap().skin, None);
}

#[test]
fn trailing_bytes_behind_the_properties_are_let_pass() {
    let mut message = message_with(1, "203.0.113.9:51234", "Alex", &[("cape", "c", None)]);
    message.extend_from_slice(b"trailing");
    let info = verify_forwarding_info(&signed(&message, SECRET), SECRET).unwrap();
    assert_eq!(info.skin, None);
    assert_eq!(info.name, "Alex");
}

#[test]
fn skin_is_searched_from_a_position() {
    let mut data = vec![0xee, 0xee];
    put_varint(&mut data, 1);
    put_property(&mut data, "textures", "t", Some("s"));
    assert_eq!(find_skin_data(&data, 2), Ok(Some(skin("t", "s"))));
    assert_eq!(find_skin_data(&data, data.len()), Err(VelocityError::Read(BufReadError::Io)));
    assert_eq!(find_skin_data(&[0x00], 0), Ok(None));
}

#[test]
fn property_is_read_with_and_without_signature() {
    let mut data = Vec::new();
    put_property(&mut data, "n", "v", Some("s"));
    let end = data.len();
    put_property(&mut data, "m", "w", None);
    assert_eq!(
        read_property(&data, 0),
        Ok((
            Property {
                name: "n".to_string(),
                value: "v".to_string(),
                signature: Some("s".to_string())
            },
            end
        ))
    );
    assert_eq!(
        read_property(&data, end),
        Ok((
            Property { name: "m".to_string(), value: "w".to_string(), signature: None },
            data.len()
        ))
    );
    assert_eq!(read_property(&data[..end - 1], 0), Err(BufReadError::UnexpectedEof { attempted_read: 1, actual_read: 0 }));
}

#[test]
fn velocity_errors_say_what_went_wrong() {
    assert_eq!(VelocityError::InvalidSignatureLength.message(), "invalid signature length");
    assert_eq!(VelocityError::InvalidSignature.message(), "invalid signature provided");
    assert_eq!(
        VelocityError::UnsupportedVersion(2).message(),
        "unsupported version: 2 (expected 1)"
    );
    assert_eq!(
        VelocityError::UnsupportedVersion(-7).message(),
        "unsupported version: -7 (expected 1)"
    );
    assert_eq!(
        VelocityError::AddrParse.message(),
        "failed to parse addr: invalid socket address syntax"
    );
    assert_eq!(
        VelocityError::Read(BufReadError::Io).message(),
        "read error: failed to fill whole buffer"
    );
}
