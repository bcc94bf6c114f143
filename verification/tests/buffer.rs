use data_payload::{BufferMarker, DataErrorKind, DataMarker, DataPayload, YokedBuffer};

struct RawMarker;

impl DataMarker for RawMarker {
    type Yokeable = YokedBuffer;
}

struct LengthMarker;

impl DataMarker for LengthMarker {
    type Yokeable = usize;
}

static GREETING: [u8; 5] = *b"Hello";

fn boxed(bytes: &[u8]) -> Box<[u8]> {
    bytes.to_vec().into_boxed_slice()
}

#[test]
fn static_buffer_shows_its_bytes() {
    let payload = DataPayload::<BufferMarker>::from_static_buffer(&GREETING);
    assert_eq!(payload.get().as_slice(), b"Hello");
    assert_eq!(payload.get().as_slice().len(), 5);
    assert!(std::ptr::eq(payload.get().as_slice(), &GREETING[..]));
}

#[test]
fn static_buffer_has_no_storage() {
    let payload = DataPayload::<BufferMarker>::from_static_buffer(&GREETING);
    let view = payload.try_unwrap_owned().unwrap();
    assert_eq!(view.as_slice(), b"Hello");
}

#[test]
fn empty_static_buffer() {
    let payload = DataPayload::<BufferMarker>::from_static_buffer(&[]);
    assert_eq!(payload.get().as_slice().len(), 0);
    assert_eq!(payload.get().as_slice(), b"");
}

#[test]
fn owned_buffer_shows_its_bytes() {
    let payload = DataPayload::<BufferMarker>::from_owned_buffer(boxed(&[1, 2, 3]));
    assert_eq!(payload.get().as_slice(), &[1, 2, 3]);
    assert_eq!(payload.get().as_slice().len(), 3);
}

#[test]
fn owned_buffer_is_attached() {
    let payload = DataPayload::<BufferMarker>::from_owned_buffer(boxed(&[1, 2, 3]));
    let error = payload.try_unwrap_owned().unwrap_err();
    assert_eq!(error.kind, DataErrorKind::InvalidState);
}

#[test]
fn owned_buffer_is_not_copied() {
    let buffer = boxed(&[9, 8, 7]);
    let address = format!("{:p}", &buffer[0]);
    let payload = DataPayload::<BufferMarker>::from_owned_buffer(buffer);
    let seen = format!("{:p}", &payload.get().as_slice()[0]);
    assert_eq!(address, seen);
}

#[test]
fn clone_shares_the_bytes() {
    let payload = DataPayload::<BufferMarker>::from_owned_buffer(boxed(b"shared"));
    let copy = payload.clone();
    assert_eq!(copy.get().as_slice(), b"shared");
    assert!(std::ptr::eq(payload.get().as_slice(), copy.get().as_slice()));
    drop(payload);
    assert_eq!(copy.get().as_slice(), b"shared");
}

#[test]
fn projection_preserves_the_storage() {
    let source = DataPayload::<BufferMarker>::from_owned_buffer(boxed(b"projected"));
    let second: DataPayload<RawMarker> = source.map_project_cloned(|view, _| view.clone());
    assert!(std::ptr::eq(source.get().as_slice(), second.get().as_slice()));
    let third: DataPayload<RawMarker> = source.map_project(|view, _| view);
    assert!(std::ptr::eq(second.get().as_slice(), third.get().as_slice()));
    assert_eq!(third.get().as_slice(), b"projected");
    assert_eq!(
        third.try_unwrap_owned().unwrap_err().kind,
        DataErrorKind::InvalidState
    );
}

#[test]
fn projection_to_an_owned_view_stays_attached() {
    let source = DataPayload::<BufferMarker>::from_owned_buffer(boxed(b"four"));
    let length: DataPayload<LengthMarker> = source.map_project(|view, _| view.as_slice().len());
    assert_eq!(*length.get(), 4);
    assert_eq!(
        length.try_unwrap_owned().unwrap_err().kind,
        DataErrorKind::InvalidState
    );
}

#[test]
fn fallible_projection_preserves_the_storage() {
    let source = DataPayload::<BufferMarker>::from_owned_buffer(boxed(b"projected"));
    let second: Result<DataPayload<RawMarker>, ()> =
        source.try_map_project_cloned(|view, _| Ok(view.clone()));
    let second = second.unwrap();
    assert!(std::ptr::eq(source.get().as_slice(), second.get().as_slice()));
    let third: Result<DataPayload<RawMarker>, ()> = source.try_map_project(|view, _| Ok(view));
    let third = third.unwrap();
    assert!(std::ptr::eq(second.get().as_slice(), third.get().as_slice()));
}

#[test]
fn cast_preserves_the_storage() {
    let source = DataPayload::<BufferMarker>::from_owned_buffer(boxed(b"cast"));
    let copy = source.clone();
    let cast: DataPayload<RawMarker> = source.cast();
    assert!(std::ptr::eq(copy.get().as_slice(), cast.get().as_slice()));
    assert_eq!(cast.get().as_slice(), b"cast");
}

#[test]
fn yoked_buffer_with_storage_makes_an_attached_payload() {
    let source = DataPayload::<BufferMarker>::from_owned_buffer(boxed(b"yoked"));
    let view = source.get().clone();
    let rebuilt = DataPayload::from_yoked_buffer(view);
    assert!(std::ptr::eq(source.get().as_slice(), rebuilt.get().as_slice()));
    drop(source);
    assert_eq!(rebuilt.get().as_slice(), b"yoked");
    assert_eq!(
        rebuilt.try_unwrap_owned().unwrap_err().kind,
        DataErrorKind::InvalidState
    );
}

#[test]
fn yoked_buffer_without_storage_makes_an_owned_payload() {
    let source = DataPayload::<BufferMarker>::from_static_buffer(&GREETING);
    let view = source.try_unwrap_owned().unwrap();
    let rebuilt = DataPayload::from_yoked_buffer(view);
    assert_eq!(rebuilt.get().as_slice(), b"Hello");
    assert!(rebuilt.try_unwrap_owned().is_ok());
}

#[test]
fn buffers_compare_by_content() {
    let owned = DataPayload::<BufferMarker>::from_owned_buffer(boxed(b"Hello"));
    let fixed = DataPayload::<BufferMarker>::from_static_buffer(&GREETING);
    let shorter = DataPayload::<BufferMarker>::from_owned_buffer(boxed(b"Hell"));
    let other = DataPayload::<BufferMarker>::from_owned_buffer(boxed(b"Hellp"));
    let empty = DataPayload::<BufferMarker>::from_owned_buffer(boxed(b""));
    assert!(owned == fixed);
    assert!(owned != shorter);
    assert!(owned != other);
    assert!(owned != empty);
    assert!(empty == DataPayload::<BufferMarker>::from_static_buffer(&[]));
}

#[test]
fn buffer_prints_as_a_slice() {
    let payload = DataPayload::<BufferMarker>::from_owned_buffer(boxed(&[1, 2, 3]));
    assert_eq!(format!("{:?}", payload), "[1, 2, 3]");
}
