//! The bytes of an allocation, as a sequence, and what a write does to them.

use vstd::prelude::*;

verus! {

/// `n` zero bytes: what a new allocation holds.
pub open spec fn zeros(n: nat) -> Seq<u8> {
    Seq::new(n, |i: int| 0u8)
}

/// `image` with `data` written over it from `offset` on. The length stays;
/// what would fall behind the end is not written.
pub open spec fn write_at(image: Seq<u8>, offset: nat, data: Seq<u8>) -> Seq<u8> {
    Seq::new(
        image.len(),
        |i: int|
            if offset <= i < offset + data.len() {
                data[i - offset]
            } else {
                image[i]
            },
    )
}

/// `n` rounded up to the next multiple of four.
pub open spec fn padded_size(n: nat) -> nat {
    ((n + 3) / 4 * 4) as nat
}

/// `contents` followed by zero bytes up to the next multiple of four.
pub open spec fn padded_image(contents: Seq<u8>) -> Seq<u8> {
    contents + zeros((padded_size(contents.len()) - contents.len()) as nat)
}

/// The bytes `from..to` of `source` at the same place in an allocation of
/// `size` bytes that is zero elsewhere.
pub open spec fn copied_image(source: Seq<u8>, size: nat, from: nat, to: nat) -> Seq<u8> {
    write_at(zeros(size), from, source.subrange(from as int, to as int))
}

/// A write that lies inside the image puts exactly `data` there and leaves
/// every other byte as it was.
pub proof fn lemma_write_at(image: Seq<u8>, offset: nat, data: Seq<u8>)
    requires
        offset + data.len() <= image.len(),
    ensures
        write_at(image, offset, data).len() == image.len(),
        write_at(image, offset, data).subrange(offset as int, (offset + data.len()) as int) == data,
        write_at(image, offset, data).subrange(0, offset as int) == image.subrange(
            0,
            offset as int,
        ),
        write_at(image, offset, data).subrange((offset + data.len()) as int, image.len() as int)
            == image.subrange((offset + data.len()) as int, image.len() as int),
{
    let written = write_at(image, offset, data);
    assert(written.subrange(offset as int, (offset + data.len()) as int) =~= data);
    assert(written.subrange(0, offset as int) =~= image.subrange(0, offset as int));
    assert(written.subrange((offset + data.len()) as int, image.len() as int) =~= image.subrange(
        (offset + data.len()) as int,
        image.len() as int,
    ));
}

/// A range that a write does not touch reads as before.
pub proof fn lemma_write_at_elsewhere(
    image: Seq<u8>,
    offset: nat,
    data: Seq<u8>,
    from: nat,
    to: nat,
)
    requires
        from <= to <= image.len(),
        to <= offset || offset + data.len() <= from,
    ensures
        write_at(image, offset, data).subrange(from as int, to as int) == image.subrange(
            from as int,
            to as int,
        ),
{
    assert(write_at(image, offset, data).subrange(from as int, to as int) =~= image.subrange(
        from as int,
        to as int,
    ));
}

/// Contents whose length is a multiple of four are padded by nothing.
pub proof fn lemma_padded_exact(contents: Seq<u8>)
    requires
        contents.len() % 4 == 0,
    ensures
        padded_size(contents.len()) == contents.len(),
        padded_image(contents) == contents,
{
    assert(padded_image(contents) =~= contents);
}

/// Writing a whole image over zeros of its length gives the image.
pub proof fn lemma_write_whole(image: Seq<u8>)
    ensures
        write_at(zeros(image.len()), 0, image) == image,
{
    assert(write_at(zeros(image.len()), 0, image) =~= image);
}

/// A copied image is `size` bytes long, agrees with the source on the
/// copied range, and is zero before and behind it.
pub proof fn lemma_copied_image(source: Seq<u8>, size: nat, from: nat, to: nat)
    requires
        from <= to <= source.len(),
        to <= size,
    ensures
        copied_image(source, size, from, to).len() == size,
        copied_image(source, size, from, to).subrange(from as int, to as int) == source.subrange(
            from as int,
            to as int,
        ),
        forall|i: int|
            0 <= i < from || to <= i < size ==> copied_image(source, size, from, to)[i] == 0,
{
    assert(copied_image(source, size, from, to).subrange(from as int, to as int)
        =~= source.subrange(from as int, to as int));
}

} // verus!
