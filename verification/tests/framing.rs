use vlc_control::framing::{find_line_end, LineBuffer, DATAGRAM_BUFFER_SIZE, LINE_END};

#[test]
fn framing_constants() {
    assert_eq!(LINE_END, b'\n');
    assert_eq!(DATAGRAM_BUFFER_SIZE, 1024);
}

#[test]
fn first_line_end_is_found() {
    assert_eq!(find_line_end(b""), None);
    assert_eq!(find_line_end(b"play"), None);
    assert_eq!(find_line_end(b"\n"), Some(0));
    assert_eq!(find_line_end(b"play\nstop\n"), Some(4));
    assert_eq!(find_line_end(b"play\r\n"), Some(5));
}

#[test]
fn lines_come_out_in_order_with_their_line_ends() {
    let mut buffer = LineBuffer::new();
    assert_eq!(buffer.pop_line(), None);
    buffer.push(b"play\nstop\nne");
    assert_eq!(buffer.pop_line(), Some(b"play\n".to_vec()));
    assert_eq!(buffer.pop_line(), Some(b"stop\n".to_vec()));
    assert_eq!(buffer.pop_line(), None);
    buffer.push(b"xt\n");
    assert_eq!(buffer.pop_line(), Some(b"next\n".to_vec()));
    assert_eq!(buffer.pop_line(), None);
    assert_eq!(buffer.take_rest(), None);
}

#[test]
fn line_split_over_many_chunks_is_put_together() {
    let mut buffer = LineBuffer::new();
    for chunk in [&b"pi"[..], b"_re", b"", b"boot", b"\n", b"\n"] {
        buffer.push(chunk);
    }
    assert_eq!(buffer.pop_line(), Some(b"pi_reboot\n".to_vec()));
    assert_eq!(buffer.pop_line(), Some(b"\n".to_vec()));
    assert_eq!(buffer.pop_line(), None);
}

#[test]
fn unterminated_rest_is_the_last_unit() {
    let mut buffer = LineBuffer::new();
    buffer.push(b"play\npause");
    assert_eq!(buffer.pop_line(), Some(b"play\n".to_vec()));
    assert_eq!(buffer.pop_line(), None);
    assert_eq!(buffer.take_rest(), Some(b"pause".to_vec()));
    assert_eq!(buffer.take_rest(), None);
    assert_eq!(buffer.pop_line(), None);
}

#[test]
fn units_of_a_stream_do_not_depend_on_the_chunks() {
    let stream = b"play\n\npi_reboot\r\nvolume 3\nlast";
    let mut whole = LineBuffer::new();
    whole.push(stream);
    let mut expected = Vec::new();
    while let Some(line) = whole.pop_line() {
        expected.push(line);
    }
    expected.extend(whole.take_rest());
    assert_eq!(expected.len(), 5);
    assert_eq!(expected.concat(), stream.to_vec());

    for size in 1..stream.len() {
        let mut buffer = LineBuffer::new();
        let mut units = Vec::new();
        for chunk in stream.chunks(size) {
            buffer.push(chunk);
            while let Some(line) = buffer.pop_line() {
                units.push(line);
            }
        }
        units.extend(buffer.take_rest());
        assert_eq!(units, expected);
    }
}
