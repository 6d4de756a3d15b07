use trustlet_monitor::guest_memory::{copy_from_guest, copy_to_guest, write_words};

fn numbered() -> [u8; 4096] {
    let mut page: [u8; 4096] = [0; 4096];
    for i in 0..4096 {
        page[i] = (i % 251) as u8;
    }
    page
}

#[test]
fn an_argument_is_copied_to_the_start_of_a_guest_page() {
    let data = numbered();
    let mut arg: [u8; 4096] = [0xff; 4096];
    copy_to_guest(&data, 4000, 96, &mut arg);
    assert_eq!(&arg[..96], &data[4000..]);
    assert_eq!(&arg[96..], &[0xff; 4000][..]);
    copy_to_guest(&data, 4096, 0, &mut arg);
    assert_eq!(&arg[..96], &data[4000..]);
}

#[test]
fn an_answer_is_copied_to_where_the_argument_was() {
    let arg = numbered();
    let mut data: [u8; 4096] = [0xff; 4096];
    copy_from_guest(&arg, 10, &mut data, 100);
    assert_eq!(&data[..100], &[0xff; 100][..]);
    assert_eq!(&data[100..110], &arg[..10]);
    assert_eq!(&data[110..], &[0xff; 3986][..]);
}

#[test]
fn an_argument_that_nobody_changes_comes_back() {
    let before = numbered();
    let mut data = before;
    let mut arg: [u8; 4096] = [7; 4096];
    copy_to_guest(&data, 1234, 500, &mut arg);
    copy_from_guest(&arg, 500, &mut data, 1234);
    assert_eq!(data, before);
}

#[test]
fn four_words_are_written() {
    let mut arg: [u64; 512] = [9; 512];
    write_words(&mut arg, &[1, 2, 3, 4]);
    assert_eq!(&arg[..5], &[1, 2, 3, 4, 9]);
    assert_eq!(arg[511], 9);
}
