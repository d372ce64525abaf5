//! Fragments of encoded data that is too long for a datagram.

use vstd::prelude::*;

verus! {

/// Cuts encoded data into fragments and puts them together again.
pub trait FrameFragmenter: Send + Sync {
    /// Cuts data into fragments of at most `mtu` bytes.
    fn fragment(&self, data: &[u8], mtu: usize) -> (fragments: Vec<Vec<u8>>);

    /// Takes a fragment, and gives the frame once all its fragments are there.
    fn reassemble(
        &self,
        frame_seq: u32,
        fragment_index: u32,
        fragment_count: u32,
        data: &[u8],
    ) -> (frame: Option<Vec<u8>>);
}

/// Takes it that all data fits a datagram, as it does when the encoder limits its
/// slices.
#[derive(Debug, Clone, Copy, PartialEq, Eq, Structural)]
pub struct NoOpFragmenter;

impl NoOpFragmenter {
    /// The fragments of data: the data itself.
    pub open spec fn fragments(&self, data: Seq<u8>) -> Seq<Seq<u8>> {
        seq![data]
    }

    /// What taking a fragment gives: the fragment itself.
    pub open spec fn reassembled(&self, fragment: Seq<u8>) -> Option<Seq<u8>> {
        Some(fragment)
    }
}

impl FrameFragmenter for NoOpFragmenter {
    fn fragment(&self, data: &[u8], mtu: usize) -> (fragments: Vec<Vec<u8>>)
        ensures
            fragments@.map_values(|f: Vec<u8>| f@) == self.fragments(data@),
    {
        let mut fragments: Vec<Vec<u8>> = Vec::new();
        fragments.push(vstd::slice::slice_to_vec(data));
        assert(fragments@.map_values(|f: Vec<u8>| f@) =~= self.fragments(data@));
        fragments
    }

    fn reassemble(
        &self,
        frame_seq: u32,
        fragment_index: u32,
        fragment_count: u32,
        data: &[u8],
    ) -> (frame: Option<Vec<u8>>)
        ensures
            frame matches Some(f) && Some(f@) == self.reassembled(data@),
    {
        Some(vstd::slice::slice_to_vec(data))
    }
}

/// Data that fits a datagram has fragments that do, and the last of them brings the
/// data back.
pub proof fn law_fragments_bring_the_data_back(
    fragmenter: NoOpFragmenter,
    data: Seq<u8>,
    mtu: nat,
)
    requires
        data.len() <= mtu,
    ensures
        fragmenter.fragments(data).len() > 0,
        forall|i: int|
            0 <= i < fragmenter.fragments(data).len() ==> (#[trigger] fragmenter.fragments(
                data,
            )[i]).len() <= mtu,
        fragmenter.reassembled(fragmenter.fragments(data).last()) == Some(data),
{
}

/// Data is not cut: its fragments, put one after the other, are the data, and there is
/// one.
pub proof fn law_data_is_not_cut(fragmenter: NoOpFragmenter, data: Seq<u8>)
    ensures
        fragmenter.fragments(data).len() == 1,
        fragmenter.fragments(data)[0] == data,
        fragmenter.reassembled(data) == Some(data),
{
}

} // verus!
