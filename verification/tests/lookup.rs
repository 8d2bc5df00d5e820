use paldeck::lookup::{check_status, detail_query, first_pal, listing_url, pal_names, PAGE_SIZE};
use paldeck::{APIResponse, Aura, Pal, PalError, Suitability};

fn pal(id: i64, name: &str) -> Pal {
    Pal {
        id,
        key: format!("{:03}", id),
        image: format!("/public/images/paldeck/{:03}.png", id),
        name: name.to_string(),
        wiki: format!("https://palworld.fandom.com/wiki/{}", name),
        types: vec!["neutral".to_string()],
        image_wiki: format!("https://static.wikia.nocookie.net/{}.png", name),
        suitability: vec![Suitability { type_field: "handiwork".to_string(), level: 1 }],
        drops: vec!["wool".to_string()],
        aura: Aura { name: "fluffy shield".to_string(), description: "Guards.".to_string() },
        description: "A fluffy Pal.".to_string(),
    }
}

fn page(content: Vec<Pal>) -> APIResponse {
    let count = content.len() as i64;
    APIResponse { content, page: 1, limit: 10, count, total: count }
}

#[test]
fn a_plain_name_is_its_own_query_value() {
    assert_eq!(detail_query("Lamball"), "name=Lamball");
    assert_eq!(detail_query("a-b.c_d~e09AZ"), "name=a-b.c_d~e09AZ");
}

#[test]
fn a_space_in_the_name_is_percent_encoded() {
    assert_eq!(detail_query("Mossanda Lux"), "name=Mossanda%20Lux");
}

#[test]
fn marks_of_a_query_are_percent_encoded() {
    assert_eq!(detail_query("a&b=c#d?e/f%g+h"), "name=a%26b%3Dc%23d%3Fe%2Ff%25g%2Bh");
}

#[test]
fn bytes_beyond_ascii_are_percent_encoded_in_capitals() {
    assert_eq!(detail_query("é"), "name=%C3%A9");
    assert_eq!(detail_query("👾"), "name=%F0%9F%91%BE");
    assert_eq!(detail_query("\u{1}\n"), "name=%01%0A");
}

#[test]
fn the_empty_name_has_an_empty_query_value() {
    assert_eq!(detail_query(""), "name=");
}

#[test]
fn the_listing_is_asked_for_two_hundred_records() {
    assert_eq!(PAGE_SIZE, 200);
    assert_eq!(listing_url("http://localhost:3000/"), "http://localhost:3000/?limit=200");
    assert_eq!(listing_url(""), "?limit=200");
}

#[test]
fn status_200_lets_the_body_be_read() {
    assert_eq!(check_status(200, "200 OK"), Ok(()));
}

#[test]
fn status_401_is_the_expired_credential() {
    assert_eq!(check_status(401, "401 Unauthorized"), Err(PalError::TokenExpired));
    assert_eq!(check_status(401, ""), Err(PalError::TokenExpired));
}

#[test]
fn any_other_status_is_unexpected_and_quoted() {
    assert_eq!(
        check_status(404, "404 Not Found"),
        Err(PalError::Unexpected("Unexpected status code: 404 Not Found".to_string()))
    );
    assert_eq!(
        check_status(500, "500 Internal Server Error"),
        Err(PalError::Unexpected("Unexpected status code: 500 Internal Server Error".to_string()))
    );
    assert_eq!(
        check_status(204, "204 No Content"),
        Err(PalError::Unexpected("Unexpected status code: 204 No Content".to_string()))
    );
    assert_eq!(
        check_status(0, ""),
        Err(PalError::Unexpected("Unexpected status code: ".to_string()))
    );
}

#[test]
fn a_response_without_records_is_missing_content() {
    assert_eq!(first_pal(page(Vec::new())), Err(PalError::MissingContent));
    assert_eq!(first_pal(APIResponse::default()), Err(PalError::MissingContent));
}

#[test]
fn a_response_stands_for_its_first_record() {
    assert_eq!(first_pal(page(vec![pal(1, "Lamball")])), Ok(pal(1, "Lamball")));
    assert_eq!(
        first_pal(page(vec![pal(2, "Cattiva"), pal(1, "Lamball"), pal(3, "Chikipi")])),
        Ok(pal(2, "Cattiva"))
    );
}

#[test]
fn the_names_of_a_listing_come_in_its_order() {
    let listing = page(vec![pal(2, "Cattiva"), pal(1, "Lamball"), pal(3, "Chikipi")]);
    assert_eq!(pal_names(&listing), vec!["Cattiva", "Lamball", "Chikipi"]);
    assert_eq!(pal_names(&page(Vec::new())), Vec::<String>::new());
}
