use rustracer_core::graphics::vec_writer::VecWriter;
use std::io::Write;

#[test]
fn write_appends_and_reports_the_length() {
    let mut bytes = vec![7u8];
    {
        let mut writer = VecWriter::new(&mut bytes);
        assert_eq!(writer.write(&[1, 2, 3]).unwrap(), 3);
        assert_eq!(writer.write(&[]).unwrap(), 0);
        assert_eq!(writer.write(&[4]).unwrap(), 1);
        writer.flush().unwrap();
    }
    assert_eq!(bytes, vec![7, 1, 2, 3, 4]);
}

#[test]
fn new_writer_leaves_the_vector_as_it_was() {
    let mut bytes = vec![9u8, 8];
    {
        let mut writer = VecWriter::new(&mut bytes);
        writer.flush().unwrap();
    }
    assert_eq!(bytes, vec![9, 8]);
}

#[test]
fn write_all_goes_through_in_one_piece() {
    let mut bytes = Vec::new();
    {
        let mut writer = VecWriter::new(&mut bytes);
        let block = [0xabu8; 1000];
        writer.write_all(&block).unwrap();
        writer.write_all(&[1, 2]).unwrap();
    }
    assert_eq!(bytes.len(), 1002);
    assert_eq!(bytes[999], 0xab);
    assert_eq!(&bytes[1000..], &[1, 2]);
}
