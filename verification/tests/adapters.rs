use decoded_char::DecodedChars;
use decoded_char::FallibleUtf16Decoded;
use decoded_char::FallibleUtf8Decoded;
use decoded_char::Utf16Decoded;
use decoded_char::Utf8Decoded;
use decoded_char::VecCharSource;
use decoded_char::VecResultSource;

#[test]
fn utf8_adapter_keeps_order_and_length() {
    let src = VecCharSource::new(vec!['a', 'é', '中']);
    let mut adapter = Utf8Decoded::new(src);

    let first = adapter.next().unwrap();
    assert_eq!(first.chr(), 'a');
    assert_eq!(first.len(), 1);

    let second = adapter.next().unwrap();
    assert_eq!(second.chr(), 'é');
    assert_eq!(second.len(), 2);

    let third = adapter.next().unwrap();
    assert_eq!(third.chr(), '中');
    assert_eq!(third.len(), 3);

    assert!(adapter.next().is_none());
    assert!(adapter.next().is_none());
}

#[test]
fn utf8_adapter_decode_all() {
    let src = VecCharSource::new(vec!['a', 'é', '中', '😀']);
    let mut adapter = Utf8Decoded::new(src);
    let all = adapter.decode_all();
    let chars: Vec<char> = all.iter().map(|d| d.chr()).collect();
    let lens: Vec<usize> = all.iter().map(|d| d.len()).collect();
    assert_eq!(chars, vec!['a', 'é', '中', '😀']);
    assert_eq!(lens, vec![1, 2, 3, 4]);
    assert!(adapter.next().is_none());
}

#[test]
fn utf8_adapter_empty_sequence() {
    let src = VecCharSource::new(Vec::new());
    let mut adapter = Utf8Decoded::new(src);
    assert!(adapter.next().is_none());
    assert!(adapter.decode_all().is_empty());
}

#[test]
fn utf16_adapter_keeps_order_and_length() {
    let src = VecCharSource::new(vec!['a', '中', '😀']);
    let mut adapter = Utf16Decoded::new(src);
    let all = adapter.decode_all();
    let chars: Vec<char> = all.iter().map(|d| d.chr()).collect();
    let lens: Vec<usize> = all.iter().map(|d| d.len()).collect();
    assert_eq!(chars, vec!['a', '中', '😀']);
    assert_eq!(lens, vec![1, 1, 2]);
    assert!(adapter.next().is_none());
}

#[test]
fn fallible_utf8_passes_error_through_and_continues() {
    let src: VecResultSource<String> = VecResultSource::new(vec![
        Ok('a'),
        Err("bad byte".to_string()),
        Ok('中'),
    ]);
    let mut adapter = FallibleUtf8Decoded::new(src);

    let first = adapter.next().unwrap().unwrap();
    assert_eq!(first.chr(), 'a');
    assert_eq!(first.len(), 1);

    let second = adapter.next().unwrap();
    assert_eq!(second.unwrap_err(), "bad byte".to_string());

    let third = adapter.next().unwrap().unwrap();
    assert_eq!(third.chr(), '中');
    assert_eq!(third.len(), 3);

    assert!(adapter.next().is_none());
}

#[test]
fn fallible_utf8_decode_all_mixed() {
    let src: VecResultSource<u8> = VecResultSource::new(vec![Ok('é'), Err(7), Ok('😀')]);
    let mut adapter = FallibleUtf8Decoded::new(src);
    let all = adapter.decode_all();
    assert_eq!(all.len(), 3);
    let first = all[0].as_ref().unwrap();
    assert_eq!(first.chr(), 'é');
    assert_eq!(first.len(), 2);
    assert_eq!(*all[1].as_ref().unwrap_err(), 7);
    let third = all[2].as_ref().unwrap();
    assert_eq!(third.chr(), '😀');
    assert_eq!(third.len(), 4);
}

#[test]
fn fallible_utf16_passes_error_through_and_continues() {
    let src: VecResultSource<u8> = VecResultSource::new(vec![Ok('😀'), Err(3), Ok('a')]);
    let mut adapter = FallibleUtf16Decoded::new(src);

    let first = adapter.next().unwrap().unwrap();
    assert_eq!(first.chr(), '😀');
    assert_eq!(first.len(), 2);

    assert_eq!(adapter.next().unwrap().unwrap_err(), 3);

    let third = adapter.next().unwrap().unwrap();
    assert_eq!(third.chr(), 'a');
    assert_eq!(third.len(), 1);

    assert!(adapter.next().is_none());
}

#[test]
fn string_extension_yields_annotated_characters() {
    let mut adapter = "aé中".decoded_chars();
    let all = adapter.decode_all();
    let chars: Vec<char> = all.iter().map(|d| d.chr()).collect();
    let lens: Vec<usize> = all.iter().map(|d| d.len()).collect();
    assert_eq!(chars, vec!['a', 'é', '中']);
    assert_eq!(lens, vec![1, 2, 3]);
    assert!(adapter.next().is_none());
}

#[test]
fn string_extension_empty_string() {
    let mut adapter = "".decoded_chars();
    assert!(adapter.next().is_none());
}
