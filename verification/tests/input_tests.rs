use zkmb::input::Binding;
use zkmb::input::InputError;
use zkmb::input::parse_assignment;

#[test]
fn parses_the_product_circuit_assignment() {
    let bytes: Vec<u8> = b"a 3\nb 4\nout 12\n".to_vec();
    let bindings = parse_assignment(&bytes).unwrap();
    assert_eq!(
        bindings,
        vec![
            Binding { name: b"a".to_vec(), value: b"3".to_vec() },
            Binding { name: b"b".to_vec(), value: b"4".to_vec() },
            Binding { name: b"out".to_vec(), value: b"12".to_vec() },
        ]
    );
}

#[test]
fn parses_the_public_subset() {
    let bytes: Vec<u8> = b"out 12\n".to_vec();
    let bindings = parse_assignment(&bytes).unwrap();
    assert_eq!(bindings, vec![Binding { name: b"out".to_vec(), value: b"12".to_vec() }]);
}

#[test]
fn empty_file_and_empty_lines() {
    assert_eq!(parse_assignment(&Vec::new()).unwrap(), Vec::new());
    let bytes: Vec<u8> = b"\n\nx_1 7\n\ny2 0\n\n".to_vec();
    let bindings = parse_assignment(&bytes).unwrap();
    assert_eq!(
        bindings,
        vec![
            Binding { name: b"x_1".to_vec(), value: b"7".to_vec() },
            Binding { name: b"y2".to_vec(), value: b"0".to_vec() },
        ]
    );
}

#[test]
fn missing_newline_at_end_is_fine() {
    let bytes: Vec<u8> = b"a 1\nb 2".to_vec();
    let bindings = parse_assignment(&bytes).unwrap();
    assert_eq!(bindings.len(), 2);
    assert_eq!(bindings[1].value, b"2".to_vec());
}

#[test]
fn rejects_a_line_without_a_space() {
    let bytes: Vec<u8> = b"a 1\njusta_name\n".to_vec();
    assert_eq!(parse_assignment(&bytes), Err(InputError::Malformed));
}

#[test]
fn rejects_a_bad_name() {
    let bytes: Vec<u8> = b"3a 5\n".to_vec();
    assert_eq!(parse_assignment(&bytes), Err(InputError::Malformed));
    let bytes: Vec<u8> = b" 5\n".to_vec();
    assert_eq!(parse_assignment(&bytes), Err(InputError::Malformed));
    let bytes: Vec<u8> = b"a-b 5\n".to_vec();
    assert_eq!(parse_assignment(&bytes), Err(InputError::Malformed));
}

#[test]
fn rejects_a_bad_value() {
    let bytes: Vec<u8> = b"a x\n".to_vec();
    assert_eq!(parse_assignment(&bytes), Err(InputError::Malformed));
    let bytes: Vec<u8> = b"a \n".to_vec();
    assert_eq!(parse_assignment(&bytes), Err(InputError::Malformed));
    let bytes: Vec<u8> = b"a 1 2\n".to_vec();
    assert_eq!(parse_assignment(&bytes), Err(InputError::Malformed));
}

#[test]
fn field_sized_literals_are_accepted_verbatim() {
    // a literal wider than any machine word, as a 255-bit field element is
    let literal = b"115792089237316195423570985008687907853269984665640564039457584007913129639936";
    let mut bytes: Vec<u8> = b"a ".to_vec();
    bytes.extend_from_slice(literal);
    bytes.push(b'\n');
    let bindings = parse_assignment(&bytes).unwrap();
    assert_eq!(bindings[0].value, literal.to_vec());
}

#[test]
fn leading_zeros_are_kept_verbatim() {
    let bytes: Vec<u8> = b"a 0012\n".to_vec();
    let bindings = parse_assignment(&bytes).unwrap();
    assert_eq!(bindings[0].value, b"0012".to_vec());
}
