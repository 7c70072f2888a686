//! The prefectures of Japan, numbered as in JIS X 0401 and ISO 3166-2:JP.

use vstd::prelude::*;
use vstd::std_specs::convert::TryFromSpecImpl;
use std::str::FromStr;
use crate::error::{framed, invalid_argument, plain_outcome, Error, ErrorView};
use crate::number::{
    all_ascii_digits, decimal, decimal_string, decimal_value, digits_value,
    lemma_padded_round_trip, padded, padded_string, pow10, read_two_digit_code, two_digit_code,
};
use crate::text::chars_of;

verus! {

/// The number in an ISO 3166-2 code of Japan: `JP-` and two digits.
pub open spec fn iso_code(s: Seq<char>) -> Option<nat> {
    if s.len() == 5 && s[0] == 'J' && s[1] == 'P' && s[2] == '-' && all_ascii_digits(s.skip(3)) {
        Some(decimal_value(s.skip(3)))
    } else {
        None
    }
}

/// The number in an ISO 3166-2 code of Japan, see [`iso_code`].
fn read_iso_code(s: &str) -> (r: Option<u32>)
    ensures
        r is Some <==> iso_code(s@) is Some,
        r matches Some(n) ==> n == iso_code(s@).unwrap(),
{
    let v = chars_of(s);
    if v.len() == 5 && v[0] == 'J' && v[1] == 'P' && v[2] == '-' {
        assert(v@.subrange(3, 5) =~= v@.skip(3));
        digits_value(&v, 3, 5)
    } else {
        None
    }
}

/// A prefecture of Japan.
#[derive(Debug, Clone, Copy, PartialEq, Eq, Hash, Structural)]
pub enum Prefecture {
    /// 北海道, written `01`.
    Hokkaido,
    /// 青森県, written `02`.
    Aomori,
    /// 岩手県, written `03`.
    Iwate,
    /// 宮城県, written `04`.
    Miyagi,
    /// 秋田県, written `05`.
    Akita,
    /// 山形県, written `06`.
    Yamagata,
    /// 福島県, written `07`.
    Fukushima,
    /// 茨城県, written `08`.
    Ibaraki,
    /// 栃木県, written `09`.
    Tochigi,
    /// 群馬県, written `10`.
    Gumma,
    /// 埼玉県, written `11`.
    Saitama,
    /// 千葉県, written `12`.
    Chiba,
    /// 東京都, written `13`.
    Tokyo,
    /// 神奈川県, written `14`.
    Kanagawa,
    /// 新潟県, written `15`.
    Niigata,
    /// 富山県, written `16`.
    Toyama,
    /// 石川県, written `17`.
    Ishikawa,
    /// 福井県, written `18`.
    Fukui,
    /// 山梨県, written `19`.
    Yamanashi,
    /// 長野県, written `20`.
    Nagano,
    /// 岐阜県, written `21`.
    Gifu,
    /// 静岡県, written `22`.
    Shizuoka,
    /// 愛知県, written `23`.
    Aichi,
    /// 三重県, written `24`.
    Mie,
    /// 滋賀県, written `25`.
    Shiga,
    /// 京都府, written `26`.
    Kyoto,
    /// 大阪府, written `27`.
    Osaka,
    /// 兵庫県, written `28`.
    Hyogo,
    /// 奈良県, written `29`.
    Nara,
    /// 和歌山県, written `30`.
    Wakayama,
    /// 鳥取県, written `31`.
    Tottori,
    /// 島根県, written `32`.
    Shimane,
    /// 岡山県, written `33`.
    Okayama,
    /// 広島県, written `34`.
    Hiroshima,
    /// 山口県, written `35`.
    Yamaguchi,
    /// 徳島県, written `36`.
    Tokushima,
    /// 香川県, written `37`.
    Kagawa,
    /// 愛媛県, written `38`.
    Ehime,
    /// 高知県, written `39`.
    Kochi,
    /// 福岡県, written `40`.
    Fukuoka,
    /// 佐賀県, written `41`.
    Saga,
    /// 長崎県, written `42`.
    Nagasaki,
    /// 熊本県, written `43`.
    Kumamoto,
    /// 大分県, written `44`.
    Oita,
    /// 宮崎県, written `45`.
    Miyazaki,
    /// 鹿児島県, written `46`.
    Kagoshima,
    /// 沖縄県, written `47`.
    Okinawa,
}

impl Prefecture {
    /// The number of this prefecture, from 1 to 47.
    pub open spec fn number(self) -> nat {
        match self {
            Prefecture::Hokkaido => 1,
            Prefecture::Aomori => 2,
            Prefecture::Iwate => 3,
            Prefecture::Miyagi => 4,
            Prefecture::Akita => 5,
            Prefecture::Yamagata => 6,
            Prefecture::Fukushima => 7,
            Prefecture::Ibaraki => 8,
            Prefecture::Tochigi => 9,
            Prefecture::Gumma => 10,
            Prefecture::Saitama => 11,
            Prefecture::Chiba => 12,
            Prefecture::Tokyo => 13,
            Prefecture::Kanagawa => 14,
            Prefecture::Niigata => 15,
            Prefecture::Toyama => 16,
            Prefecture::Ishikawa => 17,
            Prefecture::Fukui => 18,
            Prefecture::Yamanashi => 19,
            Prefecture::Nagano => 20,
            Prefecture::Gifu => 21,
            Prefecture::Shizuoka => 22,
            Prefecture::Aichi => 23,
            Prefecture::Mie => 24,
            Prefecture::Shiga => 25,
            Prefecture::Kyoto => 26,
            Prefecture::Osaka => 27,
            Prefecture::Hyogo => 28,
            Prefecture::Nara => 29,
            Prefecture::Wakayama => 30,
            Prefecture::Tottori => 31,
            Prefecture::Shimane => 32,
            Prefecture::Okayama => 33,
            Prefecture::Hiroshima => 34,
            Prefecture::Yamaguchi => 35,
            Prefecture::Tokushima => 36,
            Prefecture::Kagawa => 37,
            Prefecture::Ehime => 38,
            Prefecture::Kochi => 39,
            Prefecture::Fukuoka => 40,
            Prefecture::Saga => 41,
            Prefecture::Nagasaki => 42,
            Prefecture::Kumamoto => 43,
            Prefecture::Oita => 44,
            Prefecture::Miyazaki => 45,
            Prefecture::Kagoshima => 46,
            Prefecture::Okinawa => 47,
        }
    }

    /// The prefecture with the number `n`, if there is one.
    pub open spec fn from_number(n: nat) -> Option<Prefecture> {
        if n == 1 {
            Some(Prefecture::Hokkaido)
        } else if n == 2 {
            Some(Prefecture::Aomori)
        } else if n == 3 {
            Some(Prefecture::Iwate)
        } else if n == 4 {
            Some(Prefecture::Miyagi)
        } else if n == 5 {
            Some(Prefecture::Akita)
        } else if n == 6 {
            Some(Prefecture::Yamagata)
        } else if n == 7 {
            Some(Prefecture::Fukushima)
        } else if n == 8 {
            Some(Prefecture::Ibaraki)
        } else if n == 9 {
            Some(Prefecture::Tochigi)
        } else if n == 10 {
            Some(Prefecture::Gumma)
        } else if n == 11 {
            Some(Prefecture::Saitama)
        } else if n == 12 {
            Some(Prefecture::Chiba)
        } else if n == 13 {
            Some(Prefecture::Tokyo)
        } else if n == 14 {
            Some(Prefecture::Kanagawa)
        } else if n == 15 {
            Some(Prefecture::Niigata)
        } else if n == 16 {
            Some(Prefecture::Toyama)
        } else if n == 17 {
            Some(Prefecture::Ishikawa)
        } else if n == 18 {
            Some(Prefecture::Fukui)
        } else if n == 19 {
            Some(Prefecture::Yamanashi)
        } else if n == 20 {
            Some(Prefecture::Nagano)
        } else if n == 21 {
            Some(Prefecture::Gifu)
        } else if n == 22 {
            Some(Prefecture::Shizuoka)
        } else if n == 23 {
            Some(Prefecture::Aichi)
        } else if n == 24 {
            Some(Prefecture::Mie)
        } else if n == 25 {
            Some(Prefecture::Shiga)
        } else if n == 26 {
            Some(Prefecture::Kyoto)
        } else if n == 27 {
            Some(Prefecture::Osaka)
        } else if n == 28 {
            Some(Prefecture::Hyogo)
        } else if n == 29 {
            Some(Prefecture::Nara)
        } else if n == 30 {
            Some(Prefecture::Wakayama)
        } else if n == 31 {
            Some(Prefecture::Tottori)
        } else if n == 32 {
            Some(Prefecture::Shimane)
        } else if n == 33 {
            Some(Prefecture::Okayama)
        } else if n == 34 {
            Some(Prefecture::Hiroshima)
        } else if n == 35 {
            Some(Prefecture::Yamaguchi)
        } else if n == 36 {
            Some(Prefecture::Tokushima)
        } else if n == 37 {
            Some(Prefecture::Kagawa)
        } else if n == 38 {
            Some(Prefecture::Ehime)
        } else if n == 39 {
            Some(Prefecture::Kochi)
        } else if n == 40 {
            Some(Prefecture::Fukuoka)
        } else if n == 41 {
            Some(Prefecture::Saga)
        } else if n == 42 {
            Some(Prefecture::Nagasaki)
        } else if n == 43 {
            Some(Prefecture::Kumamoto)
        } else if n == 44 {
            Some(Prefecture::Oita)
        } else if n == 45 {
            Some(Prefecture::Miyazaki)
        } else if n == 46 {
            Some(Prefecture::Kagoshima)
        } else if n == 47 {
            Some(Prefecture::Okinawa)
        } else {
            None
        }
    }

    /// The code in a file: the number in two digits.
    pub open spec fn code(self) -> Seq<char> {
        padded(self.number(), 2)
    }

    /// The name for a reader.
    pub open spec fn label(self) -> Seq<char> {
        match self {
            Prefecture::Hokkaido => "北海道"@,
            Prefecture::Aomori => "青森県"@,
            Prefecture::Iwate => "岩手県"@,
            Prefecture::Miyagi => "宮城県"@,
            Prefecture::Akita => "秋田県"@,
            Prefecture::Yamagata => "山形県"@,
            Prefecture::Fukushima => "福島県"@,
            Prefecture::Ibaraki => "茨城県"@,
            Prefecture::Tochigi => "栃木県"@,
            Prefecture::Gumma => "群馬県"@,
            Prefecture::Saitama => "埼玉県"@,
            Prefecture::Chiba => "千葉県"@,
            Prefecture::Tokyo => "東京都"@,
            Prefecture::Kanagawa => "神奈川県"@,
            Prefecture::Niigata => "新潟県"@,
            Prefecture::Toyama => "富山県"@,
            Prefecture::Ishikawa => "石川県"@,
            Prefecture::Fukui => "福井県"@,
            Prefecture::Yamanashi => "山梨県"@,
            Prefecture::Nagano => "長野県"@,
            Prefecture::Gifu => "岐阜県"@,
            Prefecture::Shizuoka => "静岡県"@,
            Prefecture::Aichi => "愛知県"@,
            Prefecture::Mie => "三重県"@,
            Prefecture::Shiga => "滋賀県"@,
            Prefecture::Kyoto => "京都府"@,
            Prefecture::Osaka => "大阪府"@,
            Prefecture::Hyogo => "兵庫県"@,
            Prefecture::Nara => "奈良県"@,
            Prefecture::Wakayama => "和歌山県"@,
            Prefecture::Tottori => "鳥取県"@,
            Prefecture::Shimane => "島根県"@,
            Prefecture::Okayama => "岡山県"@,
            Prefecture::Hiroshima => "広島県"@,
            Prefecture::Yamaguchi => "山口県"@,
            Prefecture::Tokushima => "徳島県"@,
            Prefecture::Kagawa => "香川県"@,
            Prefecture::Ehime => "愛媛県"@,
            Prefecture::Kochi => "高知県"@,
            Prefecture::Fukuoka => "福岡県"@,
            Prefecture::Saga => "佐賀県"@,
            Prefecture::Nagasaki => "長崎県"@,
            Prefecture::Kumamoto => "熊本県"@,
            Prefecture::Oita => "大分県"@,
            Prefecture::Miyazaki => "宮崎県"@,
            Prefecture::Kagoshima => "鹿児島県"@,
            Prefecture::Okinawa => "沖縄県"@,
        }
    }

    /// The prefecture that the name `s` stands for, if there is one: its
    /// Japanese name with or without the suffix, or its name in Latin letters.
    pub open spec fn from_name(s: Seq<char>) -> Option<Prefecture> {
        if s == "北海道"@ || s == "Hokkaido"@ {
            Some(Prefecture::Hokkaido)
        } else if s == "青森"@ || s == "青森県"@ || s == "Aomori"@ {
            Some(Prefecture::Aomori)
        } else if s == "岩手"@ || s == "岩手県"@ || s == "Iwate"@ {
            Some(Prefecture::Iwate)
        } else if s == "宮城"@ || s == "宮城県"@ || s == "Miyagi"@ {
            Some(Prefecture::Miyagi)
        } else if s == "秋田"@ || s == "秋田県"@ || s == "Akita"@ {
            Some(Prefecture::Akita)
        } else if s == "山形"@ || s == "山形県"@ || s == "Yamagata"@ {
            Some(Prefecture::Yamagata)
        } else if s == "福島"@ || s == "福島県"@ || s == "Fukushima"@ {
            Some(Prefecture::Fukushima)
        } else if s == "茨城"@ || s == "茨城県"@ || s == "Ibaraki"@ {
            Some(Prefecture::Ibaraki)
        } else if s == "栃木"@ || s == "栃木県"@ || s == "Tochigi"@ {
            Some(Prefecture::Tochigi)
        } else if s == "群馬"@ || s == "群馬県"@ || s == "Gumma"@ {
            Some(Prefecture::Gumma)
        } else if s == "埼玉"@ || s == "埼玉県"@ || s == "Saitama"@ {
            Some(Prefecture::Saitama)
        } else if s == "千葉"@ || s == "千葉県"@ || s == "Chiba"@ {
            Some(Prefecture::Chiba)
        } else if s == "東京"@ || s == "東京都"@ || s == "Tokyo"@ {
            Some(Prefecture::Tokyo)
        } else if s == "神奈川"@ || s == "神奈川県"@ || s == "Kanagawa"@ {
            Some(Prefecture::Kanagawa)
        } else if s == "新潟"@ || s == "新潟県"@ || s == "Niigata"@ {
            Some(Prefecture::Niigata)
        } else if s == "富山"@ || s == "富山県"@ || s == "Toyama"@ {
            Some(Prefecture::Toyama)
        } else if s == "石川"@ || s == "石川県"@ || s == "Ishikawa"@ {
            Some(Prefecture::Ishikawa)
        } else if s == "福井"@ || s == "福井県"@ || s == "Fukui"@ {
            Some(Prefecture::Fukui)
        } else if s == "山梨"@ || s == "山梨県"@ || s == "Yamanashi"@ {
            Some(Prefecture::Yamanashi)
        } else if s == "長野"@ || s == "長野県"@ || s == "Nagano"@ {
            Some(Prefecture::Nagano)
        } else if s == "岐阜"@ || s == "岐阜県"@ || s == "Gifu"@ {
            Some(Prefecture::Gifu)
        } else if s == "静岡"@ || s == "静岡県"@ || s == "Shizuoka"@ {
            Some(Prefecture::Shizuoka)
        } else if s == "愛知"@ || s == "愛知県"@ || s == "Aichi"@ {
            Some(Prefecture::Aichi)
        } else if s == "三重"@ || s == "三重県"@ || s == "Mie"@ {
            Some(Prefecture::Mie)
        } else if s == "滋賀"@ || s == "滋賀県"@ || s == "Shiga"@ {
            Some(Prefecture::Shiga)
        } else if s == "京都"@ || s == "京都府"@ || s == "Kyoto"@ {
            Some(Prefecture::Kyoto)
        } else if s == "大坂"@ || s == "大阪府"@ || s == "Osaka"@ {
            Some(Prefecture::Osaka)
        } else if s == "兵庫"@ || s == "兵庫県"@ || s == "Hyogo"@ {
            Some(Prefecture::Hyogo)
        } else if s == "奈良"@ || s == "奈良県"@ || s == "Nara"@ {
            Some(Prefecture::Nara)
        } else if s == "和歌山"@ || s == "和歌山県"@ || s == "Wakayama"@ {
            Some(Prefecture::Wakayama)
        } else if s == "鳥取"@ || s == "鳥取県"@ || s == "Tottori"@ {
            Some(Prefecture::Tottori)
        } else if s == "島根"@ || s == "島根県"@ || s == "Shimane"@ {
            Some(Prefecture::Shimane)
        } else if s == "岡山"@ || s == "岡山県"@ || s == "Okayama"@ {
            Some(Prefecture::Okayama)
        } else if s == "広島"@ || s == "広島県"@ || s == "Hiroshima"@ {
            Some(Prefecture::Hiroshima)
        } else if s == "山口"@ || s == "山口県"@ || s == "Yamaguchi"@ {
            Some(Prefecture::Yamaguchi)
        } else if s == "徳島"@ || s == "徳島県"@ || s == "Tokushima"@ {
            Some(Prefecture::Tokushima)
        } else if s == "香川"@ || s == "香川県"@ || s == "Kagawa"@ {
            Some(Prefecture::Kagawa)
        } else if s == "愛媛"@ || s == "愛媛県"@ || s == "Ehime"@ {
            Some(Prefecture::Ehime)
        } else if s == "高知"@ || s == "高知県"@ || s == "Kochi"@ {
            Some(Prefecture::Kochi)
        } else if s == "福岡"@ || s == "福岡県"@ || s == "Fukuoka"@ {
            Some(Prefecture::Fukuoka)
        } else if s == "佐賀"@ || s == "佐賀県"@ || s == "Saga"@ {
            Some(Prefecture::Saga)
        } else if s == "長崎"@ || s == "長崎県"@ || s == "Nagasaki"@ {
            Some(Prefecture::Nagasaki)
        } else if s == "熊本"@ || s == "熊本県"@ || s == "Kumamoto"@ {
            Some(Prefecture::Kumamoto)
        } else if s == "大分"@ || s == "大分県"@ || s == "Oita"@ {
            Some(Prefecture::Oita)
        } else if s == "宮崎"@ || s == "宮崎県"@ || s == "Miyazaki"@ {
            Some(Prefecture::Miyazaki)
        } else if s == "鹿児島"@ || s == "鹿児島県"@ || s == "Kagoshima"@ {
            Some(Prefecture::Kagoshima)
        } else if s == "沖縄"@ || s == "沖縄県"@ || s == "Okinawa"@ {
            Some(Prefecture::Okinawa)
        } else {
            None
        }
    }

    /// What reading the text `s` gives. Two digits and an ISO code are looked
    /// up by number, any other text by name; what is in neither table is
    /// refused.
    pub open spec fn spec_from_str(s: Seq<char>) -> Result<Prefecture, ErrorView> {
        let found = match two_digit_code(s) {
            Some(n) => Self::from_number(n),
            None => match iso_code(s) {
                Some(n) => Self::from_number(n),
                None => Self::from_name(s),
            },
        };
        match found {
            Some(v) => Ok(v),
            None => Err(invalid_argument("Cannot convert str to Prefecture, got \""@ + s + "\""@)),
        }
    }

    /// What reading the number `n` gives.
    pub open spec fn spec_try_from(n: u32) -> Result<Prefecture, ErrorView> {
        match Self::from_number(n as nat) {
            Some(v) => Ok(v),
            None => Err(
                invalid_argument(
                    "Cannot convert u32 to Prefecture, got \""@ + decimal(n as nat) + "\""@,
                ),
            ),
        }
    }

    /// The number of this prefecture.
    pub fn as_number(&self) -> (n: u32)
        ensures
            n == self.number(),
    {
        match self {
            Prefecture::Hokkaido => 1,
            Prefecture::Aomori => 2,
            Prefecture::Iwate => 3,
            Prefecture::Miyagi => 4,
            Prefecture::Akita => 5,
            Prefecture::Yamagata => 6,
            Prefecture::Fukushima => 7,
            Prefecture::Ibaraki => 8,
            Prefecture::Tochigi => 9,
            Prefecture::Gumma => 10,
            Prefecture::Saitama => 11,
            Prefecture::Chiba => 12,
            Prefecture::Tokyo => 13,
            Prefecture::Kanagawa => 14,
            Prefecture::Niigata => 15,
            Prefecture::Toyama => 16,
            Prefecture::Ishikawa => 17,
            Prefecture::Fukui => 18,
            Prefecture::Yamanashi => 19,
            Prefecture::Nagano => 20,
            Prefecture::Gifu => 21,
            Prefecture::Shizuoka => 22,
            Prefecture::Aichi => 23,
            Prefecture::Mie => 24,
            Prefecture::Shiga => 25,
            Prefecture::Kyoto => 26,
            Prefecture::Osaka => 27,
            Prefecture::Hyogo => 28,
            Prefecture::Nara => 29,
            Prefecture::Wakayama => 30,
            Prefecture::Tottori => 31,
            Prefecture::Shimane => 32,
            Prefecture::Okayama => 33,
            Prefecture::Hiroshima => 34,
            Prefecture::Yamaguchi => 35,
            Prefecture::Tokushima => 36,
            Prefecture::Kagawa => 37,
            Prefecture::Ehime => 38,
            Prefecture::Kochi => 39,
            Prefecture::Fukuoka => 40,
            Prefecture::Saga => 41,
            Prefecture::Nagasaki => 42,
            Prefecture::Kumamoto => 43,
            Prefecture::Oita => 44,
            Prefecture::Miyazaki => 45,
            Prefecture::Kagoshima => 46,
            Prefecture::Okinawa => 47,
        }
    }

    /// The code in a file.
    pub fn to_code(&self) -> (r: String)
        ensures
            r@ == self.code(),
    {
        padded_string(self.as_number() as u64, 2)
    }

    /// The name for a reader.
    pub fn to_string(&self) -> (r: String)
        ensures
            r@ == self.label(),
    {
        match self {
            Prefecture::Hokkaido => "北海道".to_owned(),
            Prefecture::Aomori => "青森県".to_owned(),
            Prefecture::Iwate => "岩手県".to_owned(),
            Prefecture::Miyagi => "宮城県".to_owned(),
            Prefecture::Akita => "秋田県".to_owned(),
            Prefecture::Yamagata => "山形県".to_owned(),
            Prefecture::Fukushima => "福島県".to_owned(),
            Prefecture::Ibaraki => "茨城県".to_owned(),
            Prefecture::Tochigi => "栃木県".to_owned(),
            Prefecture::Gumma => "群馬県".to_owned(),
            Prefecture::Saitama => "埼玉県".to_owned(),
            Prefecture::Chiba => "千葉県".to_owned(),
            Prefecture::Tokyo => "東京都".to_owned(),
            Prefecture::Kanagawa => "神奈川県".to_owned(),
            Prefecture::Niigata => "新潟県".to_owned(),
            Prefecture::Toyama => "富山県".to_owned(),
            Prefecture::Ishikawa => "石川県".to_owned(),
            Prefecture::Fukui => "福井県".to_owned(),
            Prefecture::Yamanashi => "山梨県".to_owned(),
            Prefecture::Nagano => "長野県".to_owned(),
            Prefecture::Gifu => "岐阜県".to_owned(),
            Prefecture::Shizuoka => "静岡県".to_owned(),
            Prefecture::Aichi => "愛知県".to_owned(),
            Prefecture::Mie => "三重県".to_owned(),
            Prefecture::Shiga => "滋賀県".to_owned(),
            Prefecture::Kyoto => "京都府".to_owned(),
            Prefecture::Osaka => "大阪府".to_owned(),
            Prefecture::Hyogo => "兵庫県".to_owned(),
            Prefecture::Nara => "奈良県".to_owned(),
            Prefecture::Wakayama => "和歌山県".to_owned(),
            Prefecture::Tottori => "鳥取県".to_owned(),
            Prefecture::Shimane => "島根県".to_owned(),
            Prefecture::Okayama => "岡山県".to_owned(),
            Prefecture::Hiroshima => "広島県".to_owned(),
            Prefecture::Yamaguchi => "山口県".to_owned(),
            Prefecture::Tokushima => "徳島県".to_owned(),
            Prefecture::Kagawa => "香川県".to_owned(),
            Prefecture::Ehime => "愛媛県".to_owned(),
            Prefecture::Kochi => "高知県".to_owned(),
            Prefecture::Fukuoka => "福岡県".to_owned(),
            Prefecture::Saga => "佐賀県".to_owned(),
            Prefecture::Nagasaki => "長崎県".to_owned(),
            Prefecture::Kumamoto => "熊本県".to_owned(),
            Prefecture::Oita => "大分県".to_owned(),
            Prefecture::Miyazaki => "宮崎県".to_owned(),
            Prefecture::Kagoshima => "鹿児島県".to_owned(),
            Prefecture::Okinawa => "沖縄県".to_owned(),
        }
    }

    fn of_number(n: u32) -> (r: Option<Prefecture>)
        ensures
            r == Self::from_number(n as nat),
    {
        if n == 1 {
            Some(Prefecture::Hokkaido)
        } else if n == 2 {
            Some(Prefecture::Aomori)
        } else if n == 3 {
            Some(Prefecture::Iwate)
        } else if n == 4 {
            Some(Prefecture::Miyagi)
        } else if n == 5 {
            Some(Prefecture::Akita)
        } else if n == 6 {
            Some(Prefecture::Yamagata)
        } else if n == 7 {
            Some(Prefecture::Fukushima)
        } else if n == 8 {
            Some(Prefecture::Ibaraki)
        } else if n == 9 {
            Some(Prefecture::Tochigi)
        } else if n == 10 {
            Some(Prefecture::Gumma)
        } else if n == 11 {
            Some(Prefecture::Saitama)
        } else if n == 12 {
            Some(Prefecture::Chiba)
        } else if n == 13 {
            Some(Prefecture::Tokyo)
        } else if n == 14 {
            Some(Prefecture::Kanagawa)
        } else if n == 15 {
            Some(Prefecture::Niigata)
        } else if n == 16 {
            Some(Prefecture::Toyama)
        } else if n == 17 {
            Some(Prefecture::Ishikawa)
        } else if n == 18 {
            Some(Prefecture::Fukui)
        } else if n == 19 {
            Some(Prefecture::Yamanashi)
        } else if n == 20 {
            Some(Prefecture::Nagano)
        } else if n == 21 {
            Some(Prefecture::Gifu)
        } else if n == 22 {
            Some(Prefecture::Shizuoka)
        } else if n == 23 {
            Some(Prefecture::Aichi)
        } else if n == 24 {
            Some(Prefecture::Mie)
        } else if n == 25 {
            Some(Prefecture::Shiga)
        } else if n == 26 {
            Some(Prefecture::Kyoto)
        } else if n == 27 {
            Some(Prefecture::Osaka)
        } else if n == 28 {
            Some(Prefecture::Hyogo)
        } else if n == 29 {
            Some(Prefecture::Nara)
        } else if n == 30 {
            Some(Prefecture::Wakayama)
        } else if n == 31 {
            Some(Prefecture::Tottori)
        } else if n == 32 {
            Some(Prefecture::Shimane)
        } else if n == 33 {
            Some(Prefecture::Okayama)
        } else if n == 34 {
            Some(Prefecture::Hiroshima)
        } else if n == 35 {
            Some(Prefecture::Yamaguchi)
        } else if n == 36 {
            Some(Prefecture::Tokushima)
        } else if n == 37 {
            Some(Prefecture::Kagawa)
        } else if n == 38 {
            Some(Prefecture::Ehime)
        } else if n == 39 {
            Some(Prefecture::Kochi)
        } else if n == 40 {
            Some(Prefecture::Fukuoka)
        } else if n == 41 {
            Some(Prefecture::Saga)
        } else if n == 42 {
            Some(Prefecture::Nagasaki)
        } else if n == 43 {
            Some(Prefecture::Kumamoto)
        } else if n == 44 {
            Some(Prefecture::Oita)
        } else if n == 45 {
            Some(Prefecture::Miyazaki)
        } else if n == 46 {
            Some(Prefecture::Kagoshima)
        } else if n == 47 {
            Some(Prefecture::Okinawa)
        } else {
            None
        }
    }

    fn of_name(s: &str) -> (r: Option<Prefecture>)
        ensures
            r == Self::from_name(s@),
    {
        if s.eq("北海道") || s.eq("Hokkaido") {
            Some(Prefecture::Hokkaido)
        } else if s.eq("青森") || s.eq("青森県") || s.eq("Aomori") {
            Some(Prefecture::Aomori)
        } else if s.eq("岩手") || s.eq("岩手県") || s.eq("Iwate") {
            Some(Prefecture::Iwate)
        } else if s.eq("宮城") || s.eq("宮城県") || s.eq("Miyagi") {
            Some(Prefecture::Miyagi)
        } else if s.eq("秋田") || s.eq("秋田県") || s.eq("Akita") {
            Some(Prefecture::Akita)
        } else if s.eq("山形") || s.eq("山形県") || s.eq("Yamagata") {
            Some(Prefecture::Yamagata)
        } else if s.eq("福島") || s.eq("福島県") || s.eq("Fukushima") {
            Some(Prefecture::Fukushima)
        } else if s.eq("茨城") || s.eq("茨城県") || s.eq("Ibaraki") {
            Some(Prefecture::Ibaraki)
        } else if s.eq("栃木") || s.eq("栃木県") || s.eq("Tochigi") {
            Some(Prefecture::Tochigi)
        } else if s.eq("群馬") || s.eq("群馬県") || s.eq("Gumma") {
            Some(Prefecture::Gumma)
        } else if s.eq("埼玉") || s.eq("埼玉県") || s.eq("Saitama") {
            Some(Prefecture::Saitama)
        } else if s.eq("千葉") || s.eq("千葉県") || s.eq("Chiba") {
            Some(Prefecture::Chiba)
        } else if s.eq("東京") || s.eq("東京都") || s.eq("Tokyo") {
            Some(Prefecture::Tokyo)
        } else if s.eq("神奈川") || s.eq("神奈川県") || s.eq("Kanagawa") {
            Some(Prefecture::Kanagawa)
        } else if s.eq("新潟") || s.eq("新潟県") || s.eq("Niigata") {
            Some(Prefecture::Niigata)
        } else if s.eq("富山") || s.eq("富山県") || s.eq("Toyama") {
            Some(Prefecture::Toyama)
        } else if s.eq("石川") || s.eq("石川県") || s.eq("Ishikawa") {
            Some(Prefecture::Ishikawa)
        } else if s.eq("福井") || s.eq("福井県") || s.eq("Fukui") {
            Some(Prefecture::Fukui)
        } else if s.eq("山梨") || s.eq("山梨県") || s.eq("Yamanashi") {
            Some(Prefecture::Yamanashi)
        } else if s.eq("長野") || s.eq("長野県") || s.eq("Nagano") {
            Some(Prefecture::Nagano)
        } else if s.eq("岐阜") || s.eq("岐阜県") || s.eq("Gifu") {
            Some(Prefecture::Gifu)
        } else if s.eq("静岡") || s.eq("静岡県") || s.eq("Shizuoka") {
            Some(Prefecture::Shizuoka)
        } else if s.eq("愛知") || s.eq("愛知県") || s.eq("Aichi") {
            Some(Prefecture::Aichi)
        } else if s.eq("三重") || s.eq("三重県") || s.eq("Mie") {
            Some(Prefecture::Mie)
        } else if s.eq("滋賀") || s.eq("滋賀県") || s.eq("Shiga") {
            Some(Prefecture::Shiga)
        } else if s.eq("京都") || s.eq("京都府") || s.eq("Kyoto") {
            Some(Prefecture::Kyoto)
        } else if s.eq("大坂") || s.eq("大阪府") || s.eq("Osaka") {
            Some(Prefecture::Osaka)
        } else if s.eq("兵庫") || s.eq("兵庫県") || s.eq("Hyogo") {
            Some(Prefecture::Hyogo)
        } else if s.eq("奈良") || s.eq("奈良県") || s.eq("Nara") {
            Some(Prefecture::Nara)
        } else if s.eq("和歌山") || s.eq("和歌山県") || s.eq("Wakayama") {
            Some(Prefecture::Wakayama)
        } else if s.eq("鳥取") || s.eq("鳥取県") || s.eq("Tottori") {
            Some(Prefecture::Tottori)
        } else if s.eq("島根") || s.eq("島根県") || s.eq("Shimane") {
            Some(Prefecture::Shimane)
        } else if s.eq("岡山") || s.eq("岡山県") || s.eq("Okayama") {
            Some(Prefecture::Okayama)
        } else if s.eq("広島") || s.eq("広島県") || s.eq("Hiroshima") {
            Some(Prefecture::Hiroshima)
        } else if s.eq("山口") || s.eq("山口県") || s.eq("Yamaguchi") {
            Some(Prefecture::Yamaguchi)
        } else if s.eq("徳島") || s.eq("徳島県") || s.eq("Tokushima") {
            Some(Prefecture::Tokushima)
        } else if s.eq("香川") || s.eq("香川県") || s.eq("Kagawa") {
            Some(Prefecture::Kagawa)
        } else if s.eq("愛媛") || s.eq("愛媛県") || s.eq("Ehime") {
            Some(Prefecture::Ehime)
        } else if s.eq("高知") || s.eq("高知県") || s.eq("Kochi") {
            Some(Prefecture::Kochi)
        } else if s.eq("福岡") || s.eq("福岡県") || s.eq("Fukuoka") {
            Some(Prefecture::Fukuoka)
        } else if s.eq("佐賀") || s.eq("佐賀県") || s.eq("Saga") {
            Some(Prefecture::Saga)
        } else if s.eq("長崎") || s.eq("長崎県") || s.eq("Nagasaki") {
            Some(Prefecture::Nagasaki)
        } else if s.eq("熊本") || s.eq("熊本県") || s.eq("Kumamoto") {
            Some(Prefecture::Kumamoto)
        } else if s.eq("大分") || s.eq("大分県") || s.eq("Oita") {
            Some(Prefecture::Oita)
        } else if s.eq("宮崎") || s.eq("宮崎県") || s.eq("Miyazaki") {
            Some(Prefecture::Miyazaki)
        } else if s.eq("鹿児島") || s.eq("鹿児島県") || s.eq("Kagoshima") {
            Some(Prefecture::Kagoshima)
        } else if s.eq("沖縄") || s.eq("沖縄県") || s.eq("Okinawa") {
            Some(Prefecture::Okinawa)
        } else {
            None
        }
    }
}

impl FromStr for Prefecture {
    type Err = Error;

    /// Reads a prefecture from its two-digit code, its ISO code or one of its
    /// names.
    fn from_str(s: &str) -> (r: Result<Self, Self::Err>)
        ensures
            plain_outcome(r) == Self::spec_from_str(s@),
    {
        let found = match read_two_digit_code(s) {
            Some(n) => Self::of_number(n),
            None => match read_iso_code(s) {
                Some(n) => Self::of_number(n),
                None => Self::of_name(s),
            },
        };
        match found {
            Some(v) => Ok(v),
            None => Err(
                Error::InvalidArgument(framed("Cannot convert str to Prefecture, got \"", s, "\"")),
            ),
        }
    }
}

impl TryFromSpecImpl<u32> for Prefecture {
    /// The contract of `try_from` stands on the method: an error holds its
    /// message as text, which only has a value through its view.
    open spec fn obeys_try_from_spec() -> bool {
        false
    }

    open spec fn try_from_spec(n: u32) -> Result<Self, Error> {
        arbitrary()
    }
}

impl TryFrom<u32> for Prefecture {
    type Error = Error;

    /// Reads a prefecture from its number.
    fn try_from(n: u32) -> (r: Result<Self, Error>)
        ensures
            plain_outcome(r) == Self::spec_try_from(n),
    {
        match Self::of_number(n) {
            Some(v) => Ok(v),
            None => {
                let digits = decimal_string(n as u64);
                Err(
                    Error::InvalidArgument(
                        framed("Cannot convert u32 to Prefecture, got \"", digits.as_str(), "\""),
                    ),
                )
            },
        }
    }
}

/// A number under 100 written in two digits reads back as itself.
pub proof fn lemma_two_digit_round_trip(n: nat)
    requires
        n < 100,
    ensures
        padded(n, 2).len() == 2,
        all_ascii_digits(padded(n, 2)),
        two_digit_code(padded(n, 2)) == Some(n),
{
    reveal_with_fuel(pow10, 3);
    lemma_padded_round_trip(n, 2);
}

/// A prefecture written as its code reads back as itself, and so does its
/// number.
pub proof fn lemma_prefecture_round_trip(v: Prefecture)
    ensures
        Prefecture::spec_from_str(v.code()) == Ok::<Prefecture, ErrorView>(v),
        Prefecture::spec_try_from(v.number() as u32) == Ok::<Prefecture, ErrorView>(v),
        v.code().len() == 2,
        all_ascii_digits(v.code()),
{
    lemma_two_digit_round_trip(v.number());
}

} // verus!
