use movey::listing::{
    display_range, order_query, resolve_listing_order, resolve_page, search_terms_of, total_downloads,
    version_sort, PackageSortField, PackageSortOrder, PackageVersionSort, PACKAGES_PER_PAGE,
};

#[test]
fn sort_fields_name_their_columns() {
    assert_eq!(PackageSortField::Name.to_column_name(), "name");
    assert_eq!(PackageSortField::Description.to_column_name(), "description");
    assert_eq!(PackageSortField::MostDownloads.to_column_name(), "total_downloads_count");
    assert_eq!(PackageSortField::NewlyAdded.to_column_name(), "created_at");
    assert_eq!(PackageSortField::RecentlyUpdated.to_column_name(), "updated_at");
    assert_eq!(PackageSortField::MostDownloads.to_string(), "most_downloads");
    assert_eq!(PackageSortField::NewlyAdded.to_string(), "newly_added");
    assert_eq!(PackageSortField::RecentlyUpdated.to_string(), "recently_updated");
    assert_eq!(PackageSortOrder::Asc.to_order_direction(), "ASC");
    assert_eq!(PackageSortOrder::Desc.to_order_direction(), "DESC");
}

#[test]
fn the_order_clause_names_table_column_and_direction() {
    assert_eq!(
        order_query(PackageSortField::MostDownloads, PackageSortOrder::Desc),
        "packages.total_downloads_count DESC"
    );
    assert_eq!(order_query(PackageSortField::Name, PackageSortOrder::Asc), "packages.name ASC");
}

#[test]
fn search_by_multiple_words_works() {
    assert_eq!(search_terms_of("move stdlib"), "move & stdlib");
    assert_eq!(search_terms_of("one"), "one");
    assert_eq!(search_terms_of("a  b"), "a &  & b");
    assert_eq!(search_terms_of(""), "");
}

#[test]
fn version_lists_are_latest_first_unless_asked() {
    assert_eq!(version_sort(None), PackageVersionSort::Latest);
    assert_eq!(version_sort(Some("oldest")), PackageVersionSort::Oldest);
    assert_eq!(version_sort(Some("most_downloads")), PackageVersionSort::MostDownloads);
    assert_eq!(version_sort(Some("newest")), PackageVersionSort::Latest);
}

#[test]
fn listings_sort_by_name_ascending_unless_asked() {
    assert_eq!(resolve_listing_order(None, None), (PackageSortField::Name, PackageSortOrder::Asc));
    assert_eq!(
        resolve_listing_order(Some(PackageSortField::MostDownloads), None),
        (PackageSortField::MostDownloads, PackageSortOrder::Desc)
    );
    assert_eq!(
        resolve_listing_order(Some(PackageSortField::Name), Some(PackageSortOrder::Desc)),
        (PackageSortField::Name, PackageSortOrder::Desc)
    );
}

#[test]
fn pages_start_at_one() {
    assert_eq!(resolve_page(None, None), Ok((1, PACKAGES_PER_PAGE)));
    assert_eq!(resolve_page(Some(3), Some(5)), Ok((3, 5)));
    assert_eq!(resolve_page(Some(0), None), Err("Invalid page number.".to_string()));
    assert_eq!(resolve_page(Some(2), Some(0)), Err("Invalid page number.".to_string()));
}

#[test]
fn a_page_displays_its_positions() {
    assert_eq!(display_range(1, 10), (1, 10));
    assert_eq!(display_range(3, 4), (21, 24));
    assert_eq!(display_range(2, 0), (11, 10));
}

#[test]
fn an_account_without_packages_has_no_downloads() {
    assert_eq!(total_downloads(None), 0);
    assert_eq!(total_downloads(Some(1500)), 1500);
}

#[test]
fn a_package_page_shows_the_version_asked_for_or_the_latest() {
    assert_eq!(movey::listing::requested_version(None), None);
    assert_eq!(movey::listing::requested_version(Some("")), None);
    assert_eq!(movey::listing::requested_version(Some("1.2.3")), Some("1.2.3".to_string()));
}

#[test]
fn searches_match_names_holding_the_terms() {
    assert_eq!(movey::listing::like_pattern("move & std"), "%move & std%");
}
