use hexs::error::HexError;
use hexs::grid::{Column, Coordinate, Pixel, Row};
use hexs::letters::Letters;
use hexs::numeral::{decode, encode, render, AsLetters};

fn label(n: usize) -> String {
    render(&encode(n)).unwrap()
}

#[test]
fn single_letter_works_correctly() {
    let letter_a = 0_usize.as_letters();
    assert_eq!(Ok("A".to_string()), usize::from_letters_to_string(&letter_a));
    let letter_j = 9_usize.as_letters();
    assert_eq!(Ok("J".to_string()), usize::from_letters_to_string(&letter_j));
    let letter_z = 25_usize.as_letters();
    assert_eq!(Ok("Z".to_string()), usize::from_letters_to_string(&letter_z));
    let letters_aa = 26_usize.as_letters();
    assert_eq!(Ok("AA".to_string()), usize::from_letters_to_string(&letters_aa));
    let letters_aj = 35_usize.as_letters();
    assert_eq!(Ok("AJ".to_string()), usize::from_letters_to_string(&letters_aj));
    let letters_az = 51_usize.as_letters();
    assert_eq!(Ok("AZ".to_string()), usize::from_letters_to_string(&letters_az));
    let letters_ba = 52_usize.as_letters();
    assert_eq!(Ok("BA".to_string()), usize::from_letters_to_string(&letters_ba));
    let letters_zz = 701_usize.as_letters();
    assert_eq!(Ok("ZZ".to_string()), usize::from_letters_to_string(&letters_zz));
    let letters_aaa = 702_usize.as_letters();
    assert_eq!(Ok("AAA".to_string()), usize::from_letters_to_string(&letters_aaa));
    let letters_aaj = 711_usize.as_letters();
    assert_eq!(Ok("AAJ".to_string()), usize::from_letters_to_string(&letters_aaj));
    let letters_aaz = 727_usize.as_letters();
    assert_eq!(Ok("AAZ".to_string()), usize::from_letters_to_string(&letters_aaz));
    let letters_aba = 728_usize.as_letters();
    assert_eq!(Ok("ABA".to_string()), usize::from_letters_to_string(&letters_aba));
}

#[test]
fn encode_gives_letter_values() {
    assert_eq!(encode(0), vec![Letters::A]);
    assert_eq!(encode(25), vec![Letters::Z]);
    assert_eq!(encode(26), vec![Letters::A, Letters::A]);
    assert_eq!(encode(27), vec![Letters::A, Letters::B]);
    assert_eq!(encode(702), vec![Letters::A, Letters::A, Letters::A]);
}

#[test]
fn decode_of_encode_round_trips_up_to_ten_thousand() {
    for n in 0..=10000_usize {
        assert_eq!(decode(&encode(n)), Ok(n));
    }
}

#[test]
fn decode_gives_exact_values() {
    assert_eq!(decode(&[Letters::A]), Ok(0));
    assert_eq!(decode(&[Letters::Z, Letters::Z]), Ok(701));
    assert_eq!(decode(&[Letters::A, Letters::B, Letters::A]), Ok(728));
}

#[test]
fn encode_of_decode_round_trips() {
    let s = vec![Letters::C, Letters::Z, Letters::A];
    let n = decode(&s).unwrap();
    assert_eq!(encode(n), s);
}

#[test]
fn encodings_grow_in_length_and_order() {
    for a in 0..2000_usize {
        let ea = label(a);
        let eb = label(a + 1);
        assert!(ea.len() <= eb.len());
        if ea.len() == eb.len() {
            assert!(ea < eb);
        }
    }
}

#[test]
fn empty_sequence_is_an_invalid_numeral() {
    assert_eq!(decode(&[]), Err(HexError::InvalidNumeral));
    assert_eq!(render(&[]), Err(HexError::InvalidNumeral));
    assert_eq!(usize::from_letters_to_string(&[]), Err(HexError::InvalidNumeral));
}

#[test]
fn letter_positions_and_symbols() {
    assert_eq!(Letters::try_from(0), Ok(Letters::A));
    assert_eq!(Letters::try_from(25), Ok(Letters::Z));
    assert_eq!(Letters::try_from(26), Err(HexError::InvalidNumeral));
    assert_eq!(Letters::Q.position(), 16);
    assert_eq!(Letters::Q.symbol(), 'Q');
    assert!(Letters::A < Letters::B);
    assert_eq!(Letters::default(), Letters::A);
}

#[test]
fn row_and_column_labels() {
    let row = Row::from(0);
    let column = Column::from(27);
    assert_eq!(Row::from_letters_to_string(&row.as_letters()), Ok("A".to_string()));
    assert_eq!(Column::from_letters_to_string(&column.as_letters()), Ok("AB".to_string()));
    assert_eq!(row.value(), 0);
    assert_eq!(column.value(), 27);
}

#[test]
fn coordinates_order_by_row_then_column() {
    let a = Coordinate::new(Row::from(1), Column::from(9));
    let b = Coordinate::new(Row::from(2), Column::from(0));
    let c = Coordinate::new(Row::from(2), Column::from(3));
    assert!(a < b);
    assert!(b < c);
    assert_eq!(c.row(), Row::from(2));
    assert_eq!(c.column(), Column::from(3));
    assert_eq!(Coordinate::default(), Coordinate::new(Row::from(0), Column::from(0)));
}

#[test]
fn pixel_defaults_to_five() {
    assert_eq!(Pixel::default().value(), 5);
    assert_eq!(Pixel::from(3).value(), 3);
}
