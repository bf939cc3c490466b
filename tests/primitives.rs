use type_matrux::primitives::{Id, PageIndex, Slug, TagId, TagSlug, UserId, ZeroPageIndex};

#[test]
fn page_index_starts_at_one() {
    assert_eq!(PageIndex::first().get(), 1);
}

#[test]
fn page_index_next_adds_one() {
    assert_eq!(PageIndex::from(41).next().get(), 42);
    assert_eq!(PageIndex::first().next().next().get(), 3);
}

#[test]
fn page_index_saturates_at_the_last_page() {
    assert_eq!(PageIndex::from(5).saturating_next().get(), 6);
    assert_eq!(PageIndex::from(u64::MAX).saturating_next().get(), u64::MAX);
}

#[test]
fn page_index_try_from_rejects_zero() {
    assert_eq!(PageIndex::try_from(0), Err(ZeroPageIndex));
    assert_eq!(PageIndex::try_from(9).map(|p| p.get()), Ok(9));
}

#[test]
fn page_indices_compare_by_value() {
    assert!(PageIndex::from(2) < PageIndex::from(3));
    assert_eq!(PageIndex::from(3), PageIndex::first().next().next());
}

#[test]
fn id_in_hexadecimal() {
    let id = Id::from_bytes([0x00, 0x0f, 0x10, 0xab, 0xff, 1, 2, 3, 4, 5, 6, 0x7e]);
    assert_eq!(id.to_lower_hex(), " 0 f10abff 1 2 3 4 5 67e");
    assert_eq!(id.to_upper_hex(), " 0 F10ABFF 1 2 3 4 5 67E");
}

#[test]
fn typed_ids_keep_their_id() {
    let id = Id::from_bytes([9; 12]);
    assert_eq!(TagId::from_id(id).into_id(), id);
    assert_eq!(UserId::from_id(id).into_id().as_bytes(), &[9; 12]);
}

#[test]
fn slugs_keep_their_text() {
    let slug = Slug::from_string("istoriya".to_string());
    assert_eq!(slug.as_str(), "istoriya");
    let tag = TagSlug::from_string("igri".to_string());
    assert_eq!(tag.into_slug().as_str(), "igri");
}
