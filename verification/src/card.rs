//! The card catalog: a fixed list of named cards, each with the URL of its
//! image, built in a stable order. Shuffling happens elsewhere, once per game.

use vstd::prelude::*;
use std::collections::VecDeque;

verus! {

broadcast use vstd::string::group_string_axioms;

/// One card of the game: a display name and the URL of its image.
#[derive(PartialEq, Debug)]
pub struct Card {
    pub name: String,
    pub image: String,
}

impl Clone for Card {
    fn clone(&self) -> (c: Card)
        ensures
            c@ == self@,
    {
        Card { name: self.name.clone(), image: self.image.clone() }
    }
}

/// The mathematical value of a `Card`: both strings as character sequences.
pub ghost struct CardModel {
    pub name: Seq<char>,
    pub image: Seq<char>,
}

impl View for Card {
    type V = CardModel;

    open spec fn view(&self) -> CardModel {
        CardModel { name: self.name@, image: self.image@ }
    }
}

/// The models of a sequence of cards.
pub open spec fn card_models(s: Seq<Card>) -> Seq<CardModel> {
    s.map_values(|c: Card| c@)
}

/// The full catalog, in the stable order `create_deck` builds it.
pub open spec fn catalog() -> Seq<CardModel> {
    seq![
        CardModel { name: "El Gallo"@, image: "/imgs/gallo.jpg"@ },
        CardModel { name: "El Diablo"@, image: "/imgs/diablo.jpg"@ },
        CardModel { name: "La Dama"@, image: "/imgs/dama.jpg"@ },
        CardModel { name: "El Catrin"@, image: "/imgs/catrin.jpg"@ },
        CardModel { name: "El Paraguas"@, image: "/imgs/paraguas.jpg"@ },
        CardModel { name: "La Sirena"@, image: "/imgs/sirena.jpg"@ },
        CardModel { name: "La Escalera"@, image: "/imgs/escalera.jpg"@ },
        CardModel { name: "La Botella"@, image: "/imgs/botella.jpg"@ },
        CardModel { name: "El Barril"@, image: "/imgs/barril.jpg"@ },
        CardModel { name: "El Arbol"@, image: "/imgs/arbol.jpg"@ },
        CardModel { name: "El Melon"@, image: "/imgs/melon.jpg"@ },
        CardModel { name: "El Valiente"@, image: "/imgs/valiente.jpg"@ },
        CardModel { name: "El Gorrito"@, image: "/imgs/gorrito.jpg"@ },
        CardModel { name: "La Muerte"@, image: "/imgs/muerte.jpg"@ },
        CardModel { name: "La Pera"@, image: "/imgs/pera.jpg"@ },
        CardModel { name: "La Bandera"@, image: "/imgs/bandera.jpg"@ },
        CardModel { name: "El Bandolon"@, image: "/imgs/bandolon.jpg"@ },
        CardModel { name: "El Violoncello"@, image: "/imgs/violoncello.jpg"@ },
        CardModel { name: "La Garza"@, image: "/imgs/garza.jpg"@ },
        CardModel { name: "El Pajaro"@, image: "/imgs/pajaro.jpg"@ },
        CardModel { name: "La Mano"@, image: "/imgs/mano.jpg"@ },
        CardModel { name: "La Bota"@, image: "/imgs/bota.jpg"@ },
        CardModel { name: "La Luna"@, image: "/imgs/luna.jpg"@ },
        CardModel { name: "El Cotorro"@, image: "/imgs/cotorro.jpg"@ },
        CardModel { name: "El Boracho"@, image: "/imgs/boracho.jpg"@ },
        CardModel { name: "El Negrito"@, image: "/imgs/negrito.jpg"@ },
        CardModel { name: "El Corazon"@, image: "/imgs/corazon.jpg"@ },
        CardModel { name: "La Sandia"@, image: "/imgs/sandia.jpg"@ },
        CardModel { name: "El Tambor"@, image: "/imgs/tambor.jpg"@ },
        CardModel { name: "El Camaron"@, image: "/imgs/camaron.jpg"@ },
        CardModel { name: "Las Jaras"@, image: "/imgs/jaras.jpg"@ },
        CardModel { name: "El Musico"@, image: "/imgs/musico.jpg"@ },
        CardModel { name: "La Araña"@, image: "/imgs/araña.jpg"@ },
        CardModel { name: "El Soldado"@, image: "/imgs/soldado.jpg"@ },
        CardModel { name: "La Estrella"@, image: "/imgs/estrella.jpg"@ },
        CardModel { name: "El Cazo"@, image: "/imgs/cazo.jpg"@ },
        CardModel { name: "El Apache"@, image: "/imgs/apache.jpg"@ },
        CardModel { name: "El Nopal"@, image: "/imgs/nopal.jpg"@ },
        CardModel { name: "El Alacran"@, image: "/imgs/alacran.jpg"@ },
        CardModel { name: "La Rosa"@, image: "/imgs/rosa.jpg"@ },
        CardModel { name: "La Calavera"@, image: "/imgs/calavera.jpg"@ },
        CardModel { name: "La Campana"@, image: "/imgs/campana.jpg"@ },
        CardModel { name: "El Cantarito"@, image: "/imgs/cantarito.jpg"@ },
        CardModel { name: "El Venado"@, image: "/imgs/venado.jpg"@ },
        CardModel { name: "El Sol"@, image: "/imgs/sol.jpg"@ },
        CardModel { name: "La Corona"@, image: "/imgs/corona.jpg"@ },
        CardModel { name: "La Chalupa"@, image: "/imgs/chalupa.jpg"@ },
        CardModel { name: "El Venado"@, image: "/imgs/venado.jpg"@ },
        CardModel { name: "El Pino"@, image: "/imgs/pino.jpg"@ },
        CardModel { name: "El Pescado"@, image: "/imgs/pescado.jpg"@ },
        CardModel { name: "La Palma"@, image: "/imgs/palma.jpg"@ },
        CardModel { name: "La Maceta"@, image: "/imgs/maceta.jpg"@ },
        CardModel { name: "El Arpa"@, image: "/imgs/arpa.jpg"@ },
        CardModel { name: "La Rana"@, image: "/imgs/rana.jpg"@ },
    ]
}

fn push_card(deck: &mut VecDeque<Card>, name: &str, image: &str)
    ensures
        card_models(final(deck)@) == card_models(old(deck)@).push(
            CardModel { name: name@, image: image@ },
        ),
{
    let card = Card { name: name.to_string(), image: image.to_string() };
    deck.push_back(card);
    proof {
        assert(card_models(deck@) =~= card_models(old(deck)@).push(
            CardModel { name: name@, image: image@ },
        ));
    }
}

/// Builds the catalog as a deck, in its stable order: no randomness here.
#[verifier::rlimit(100)]
pub fn create_deck() -> (deck: VecDeque<Card>)
    ensures
        card_models(deck@) =~= catalog(),
{
    let mut deck: VecDeque<Card> = VecDeque::new();
    push_card(&mut deck, "El Gallo", "/imgs/gallo.jpg");
    push_card(&mut deck, "El Diablo", "/imgs/diablo.jpg");
    push_card(&mut deck, "La Dama", "/imgs/dama.jpg");
    push_card(&mut deck, "El Catrin", "/imgs/catrin.jpg");
    push_card(&mut deck, "El Paraguas", "/imgs/paraguas.jpg");
    push_card(&mut deck, "La Sirena", "/imgs/sirena.jpg");
    push_card(&mut deck, "La Escalera", "/imgs/escalera.jpg");
    push_card(&mut deck, "La Botella", "/imgs/botella.jpg");
    push_card(&mut deck, "El Barril", "/imgs/barril.jpg");
    push_card(&mut deck, "El Arbol", "/imgs/arbol.jpg");
    push_card(&mut deck, "El Melon", "/imgs/melon.jpg");
    push_card(&mut deck, "El Valiente", "/imgs/valiente.jpg");
    push_card(&mut deck, "El Gorrito", "/imgs/gorrito.jpg");
    push_card(&mut deck, "La Muerte", "/imgs/muerte.jpg");
    push_card(&mut deck, "La Pera", "/imgs/pera.jpg");
    push_card(&mut deck, "La Bandera", "/imgs/bandera.jpg");
    push_card(&mut deck, "El Bandolon", "/imgs/bandolon.jpg");
    push_card(&mut deck, "El Violoncello", "/imgs/violoncello.jpg");
    push_card(&mut deck, "La Garza", "/imgs/garza.jpg");
    push_card(&mut deck, "El Pajaro", "/imgs/pajaro.jpg");
    push_card(&mut deck, "La Mano", "/imgs/mano.jpg");
    push_card(&mut deck, "La Bota", "/imgs/bota.jpg");
    push_card(&mut deck, "La Luna", "/imgs/luna.jpg");
    push_card(&mut deck, "El Cotorro", "/imgs/cotorro.jpg");
    push_card(&mut deck, "El Boracho", "/imgs/boracho.jpg");
    push_card(&mut deck, "El Negrito", "/imgs/negrito.jpg");
    push_card(&mut deck, "El Corazon", "/imgs/corazon.jpg");
    push_card(&mut deck, "La Sandia", "/imgs/sandia.jpg");
    push_card(&mut deck, "El Tambor", "/imgs/tambor.jpg");
    push_card(&mut deck, "El Camaron", "/imgs/camaron.jpg");
    push_card(&mut deck, "Las Jaras", "/imgs/jaras.jpg");
    push_card(&mut deck, "El Musico", "/imgs/musico.jpg");
    push_card(&mut deck, "La Araña", "/imgs/araña.jpg");
    push_card(&mut deck, "El Soldado", "/imgs/soldado.jpg");
    push_card(&mut deck, "La Estrella", "/imgs/estrella.jpg");
    push_card(&mut deck, "El Cazo", "/imgs/cazo.jpg");
    push_card(&mut deck, "El Apache", "/imgs/apache.jpg");
    push_card(&mut deck, "El Nopal", "/imgs/nopal.jpg");
    push_card(&mut deck, "El Alacran", "/imgs/alacran.jpg");
    push_card(&mut deck, "La Rosa", "/imgs/rosa.jpg");
    push_card(&mut deck, "La Calavera", "/imgs/calavera.jpg");
    push_card(&mut deck, "La Campana", "/imgs/campana.jpg");
    push_card(&mut deck, "El Cantarito", "/imgs/cantarito.jpg");
    push_card(&mut deck, "El Venado", "/imgs/venado.jpg");
    push_card(&mut deck, "El Sol", "/imgs/sol.jpg");
    push_card(&mut deck, "La Corona", "/imgs/corona.jpg");
    push_card(&mut deck, "La Chalupa", "/imgs/chalupa.jpg");
    push_card(&mut deck, "El Venado", "/imgs/venado.jpg");
    push_card(&mut deck, "El Pino", "/imgs/pino.jpg");
    push_card(&mut deck, "El Pescado", "/imgs/pescado.jpg");
    push_card(&mut deck, "La Palma", "/imgs/palma.jpg");
    push_card(&mut deck, "La Maceta", "/imgs/maceta.jpg");
    push_card(&mut deck, "El Arpa", "/imgs/arpa.jpg");
    push_card(&mut deck, "La Rana", "/imgs/rana.jpg");
    deck
}

} // verus!
