use loteria::card::create_deck;

#[test]
fn deck_holds_the_full_catalog_in_stable_order() {
    let deck = create_deck();
    assert_eq!(deck.len(), 54);
    assert_eq!(deck[0].name, "El Gallo");
    assert_eq!(deck[0].image, "/imgs/gallo.jpg");
    assert_eq!(deck[1].name, "El Diablo");
    assert_eq!(deck[2].name, "La Dama");
    assert_eq!(deck[53].name, "La Rana");
    assert_eq!(deck[53].image, "/imgs/rana.jpg");
}

#[test]
fn catalog_keeps_the_duplicate_venado() {
    let deck = create_deck();
    assert_eq!(deck[43].name, "El Venado");
    assert_eq!(deck[47].name, "El Venado");
    assert_eq!(deck[43].image, "/imgs/venado.jpg");
    let venados = deck.iter().filter(|c| c.name == "El Venado").count();
    assert_eq!(venados, 2);
}

#[test]
fn deck_is_rebuilt_the_same_every_time() {
    let a = create_deck();
    let b = create_deck();
    assert_eq!(a, b);
}
