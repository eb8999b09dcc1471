use sevenz::error::Error;
use sevenz::folder::{BindPair, Coder, Folder};
use sevenz::method::SevenZMethod;

fn simple_coder(method: SevenZMethod) -> Coder {
    Coder { method_id: method.id(), num_in_streams: 1, num_out_streams: 1, properties: vec![] }
}

fn folder_with(coders: Vec<Coder>, bind_pairs: Vec<BindPair>) -> Folder {
    Folder {
        coders,
        bind_pairs,
        packed_streams: vec![0],
        unpack_sizes: vec![0],
        num_unpack_substreams: 1,
        crc: None,
    }
}

#[test]
fn linear_chain_has_one_unbound_output() {
    // Coder 1's output feeds coder 0's input; output 0 is the folder's.
    let f = folder_with(
        vec![simple_coder(SevenZMethod::LZMA2), simple_coder(SevenZMethod::AES256SHA256)],
        vec![BindPair { in_index: 0, out_index: 1 }],
    );
    assert!(f.is_output_bound(1));
    assert!(!f.is_output_bound(0));
    assert_eq!(f.find_unbound_output(), Ok(0));
}

#[test]
fn single_coder_folder() {
    let f = folder_with(vec![simple_coder(SevenZMethod::COPY)], vec![]);
    assert_eq!(f.find_unbound_output(), Ok(0));
}

#[test]
fn fully_bound_graph_is_malformed() {
    let f = folder_with(
        vec![simple_coder(SevenZMethod::COPY)],
        vec![BindPair { in_index: 0, out_index: 0 }],
    );
    assert!(matches!(f.find_unbound_output(), Err(Error::MalformedHeader(_))));
}

#[test]
fn two_unbound_outputs_are_malformed() {
    let f = folder_with(
        vec![simple_coder(SevenZMethod::COPY), simple_coder(SevenZMethod::COPY)],
        vec![],
    );
    assert!(matches!(f.find_unbound_output(), Err(Error::MalformedHeader(_))));
}
