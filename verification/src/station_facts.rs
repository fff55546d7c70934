//! Facts about the two station lists, proved once from their literals.

use vstd::prelude::*;
use crate::station_table::{
    agrees_with, code_of, covers, has_name, name_of, stands_in, well_formed, StationRecord,
    ALTERNATE_STATIONS, STATIONS,
};

verus! {

/// A number that tells codes of up to four characters apart: equal codes have
/// equal numbers.
spec fn code_key(s: Seq<char>) -> int {
    s.len() + 8 * ((s[0] as int) + 2097152 * ((s[1] as int) + 2097152 * ((s[2] as int) + 2097152
        * (if s.len() > 3 {
        s[3] as int
    } else {
        0
    }))))
}

spec fn key_of(table: Seq<StationRecord>, i: int) -> int {
    code_key(code_of(table[i]))
}

/// A code of three or four characters, none of them a hyphen, holds no hyphen.
proof fn lemma_short_code_plain(s: Seq<char>)
    requires
        3 <= s.len() <= 4,
        forall|k: int| 0 <= k < s.len() ==> s[k] != '-',
    ensures
        !s.contains('-'),
{
}

/// The canonical station list is well formed.
pub proof fn lemma_stations_well_formed()
    ensures
        well_formed(STATIONS@),
{
    reveal_strlit("A10");
    reveal_strlit("A20");
    reveal_strlit("A30");
    reveal_strlit("A40");
    reveal_strlit("A50");
    reveal_strlit("A60");
    reveal_strlit("A70");
    reveal_strlit("A80");
    reveal_strlit("L10");
    reveal_strlit("L20");
    reveal_strlit("L30");
    reveal_strlit("L40");
    reveal_strlit("M10");
    reveal_strlit("M16");
    reveal_strlit("M20");
    reveal_strlit("M30");
    reveal_strlit("M40");
    reveal_strlit("M50");
    reveal_strlit("M60");
    reveal_strlit("M70");
    reveal_strlit("M80");
    reveal_strlit("EMBR");
    reveal_strlit("MONT");
    reveal_strlit("POWL");
    reveal_strlit("CIVC");
    reveal_strlit("16TH");
    reveal_strlit("24TH");
    reveal_strlit("GLEN");
    reveal_strlit("BALB");
    reveal_strlit("DALY");
    reveal_strlit("COLM");
    reveal_strlit("SSAN");
    reveal_strlit("SBRN");
    reveal_strlit("SFIA");
    reveal_strlit("MLBR");
    reveal_strlit("WOAK");
    reveal_strlit("12TH");
    reveal_strlit("19TH");
    reveal_strlit("MCAR");
    reveal_strlit("ASHB");
    reveal_strlit("DBRK");
    reveal_strlit("NBRK");
    reveal_strlit("PLZA");
    reveal_strlit("DELN");
    reveal_strlit("RICH");
    reveal_strlit("ROCK");
    reveal_strlit("ORIN");
    reveal_strlit("LAFY");
    reveal_strlit("WCRK");
    reveal_strlit("PHIL");
    reveal_strlit("CONC");
    reveal_strlit("NCON");
    reveal_strlit("PITT");
    reveal_strlit("PCTR");
    reveal_strlit("ANTC");
    reveal_strlit("LAKE");
    reveal_strlit("FTVL");
    reveal_strlit("COLS");
    reveal_strlit("SANL");
    reveal_strlit("BAYF");
    reveal_strlit("HAYW");
    reveal_strlit("SHAY");
    reveal_strlit("UCTY");
    reveal_strlit("FRMT");
    reveal_strlit("WARM");
    reveal_strlit("MLPT");
    reveal_strlit("BERY");
    reveal_strlit("CAST");
    reveal_strlit("WDUB");
    reveal_strlit("DUBL");
    reveal_strlit("OAKL");
    assert(code_of(STATIONS@[0]) == "A10"@ && key_of(STATIONS@, 0) == 1688850682348043);
    lemma_short_code_plain("A10"@);
    assert(code_of(STATIONS@[1]) == "A20"@ && key_of(STATIONS@, 1) == 1688850699125259);
    lemma_short_code_plain("A20"@);
    assert(code_of(STATIONS@[2]) == "A30"@ && key_of(STATIONS@, 2) == 1688850715902475);
    lemma_short_code_plain("A30"@);
    assert(code_of(STATIONS@[3]) == "A40"@ && key_of(STATIONS@, 3) == 1688850732679691);
    lemma_short_code_plain("A40"@);
    assert(code_of(STATIONS@[4]) == "A50"@ && key_of(STATIONS@, 4) == 1688850749456907);
    lemma_short_code_plain("A50"@);
    assert(code_of(STATIONS@[5]) == "A60"@ && key_of(STATIONS@, 5) == 1688850766234123);
    lemma_short_code_plain("A60"@);
    assert(code_of(STATIONS@[6]) == "A70"@ && key_of(STATIONS@, 6) == 1688850783011339);
    lemma_short_code_plain("A70"@);
    assert(code_of(STATIONS@[7]) == "A80"@ && key_of(STATIONS@, 7) == 1688850799788555);
    lemma_short_code_plain("A80"@);
    assert(code_of(STATIONS@[8]) == "L10"@ && key_of(STATIONS@, 8) == 1688850682348131);
    lemma_short_code_plain("L10"@);
    assert(code_of(STATIONS@[9]) == "L20"@ && key_of(STATIONS@, 9) == 1688850699125347);
    lemma_short_code_plain("L20"@);
    assert(code_of(STATIONS@[10]) == "L30"@ && key_of(STATIONS@, 10) == 1688850715902563);
    lemma_short_code_plain("L30"@);
    assert(code_of(STATIONS@[11]) == "L40"@ && key_of(STATIONS@, 11) == 1688850732679779);
    lemma_short_code_plain("L40"@);
    assert(code_of(STATIONS@[12]) == "M10"@ && key_of(STATIONS@, 12) == 1688850682348139);
    lemma_short_code_plain("M10"@);
    assert(code_of(STATIONS@[13]) == "M16"@ && key_of(STATIONS@, 13) == 1899956914881131);
    lemma_short_code_plain("M16"@);
    assert(code_of(STATIONS@[14]) == "M20"@ && key_of(STATIONS@, 14) == 1688850699125355);
    lemma_short_code_plain("M20"@);
    assert(code_of(STATIONS@[15]) == "M30"@ && key_of(STATIONS@, 15) == 1688850715902571);
    lemma_short_code_plain("M30"@);
    assert(code_of(STATIONS@[16]) == "M40"@ && key_of(STATIONS@, 16) == 1688850732679787);
    lemma_short_code_plain("M40"@);
    assert(code_of(STATIONS@[17]) == "M50"@ && key_of(STATIONS@, 17) == 1688850749457003);
    lemma_short_code_plain("M50"@);
    assert(code_of(STATIONS@[18]) == "M60"@ && key_of(STATIONS@, 18) == 1688850766234219);
    lemma_short_code_plain("M60"@);
    assert(code_of(STATIONS@[19]) == "M70"@ && key_of(STATIONS@, 19) == 1688850783011435);
    lemma_short_code_plain("M70"@);
    assert(code_of(STATIONS@[20]) == "M80"@ && key_of(STATIONS@, 20) == 1688850799788651);
    lemma_short_code_plain("M80"@);
    assert(code_of(STATIONS@[21]) == "EMBR"@ && key_of(STATIONS@, 21) == 6050534378346582639148);
    lemma_short_code_plain("EMBR"@);
    assert(code_of(STATIONS@[22]) == "MONT"@ && key_of(STATIONS@, 22) == 6198108753148757672556);
    lemma_short_code_plain("MONT"@);
    assert(code_of(STATIONS@[23]) == "POWL"@ && key_of(STATIONS@, 23) == 5607813259449400820356);
    lemma_short_code_plain("POWL"@);
    assert(code_of(STATIONS@[24]) == "CIVC"@ && key_of(STATIONS@, 24) == 4943730437611384209948);
    lemma_short_code_plain("CIVC"@);
    assert(code_of(STATIONS@[25]) == "16TH"@ && key_of(STATIONS@, 25) == 5312665248716512297356);
    lemma_short_code_plain("16TH"@);
    assert(code_of(STATIONS@[26]) == "24TH"@ && key_of(STATIONS@, 26) == 5312665248716478742932);
    lemma_short_code_plain("24TH"@);
    assert(code_of(STATIONS@[27]) == "GLEN"@ && key_of(STATIONS@, 27) == 5755386578720329302588);
    lemma_short_code_plain("GLEN"@);
    assert(code_of(STATIONS@[28]) == "BALB"@ && key_of(STATIONS@, 28) == 4869943109472690897428);
    lemma_short_code_plain("BALB"@);
    assert(code_of(STATIONS@[29]) == "DALY"@ && key_of(STATIONS@, 29) == 6567043564253969646116);
    lemma_short_code_plain("DALY"@);
    assert(code_of(STATIONS@[30]) == "COLM"@ && key_of(STATIONS@, 30) == 5681599848716146049564);
    lemma_short_code_plain("COLM"@);
    assert(code_of(STATIONS@[31]) == "SSAN"@ && key_of(STATIONS@, 31) == 5755386437982958387868);
    lemma_short_code_plain("SSAN"@);
    assert(code_of(STATIONS@[32]) == "SBRN"@ && key_of(STATIONS@, 32) == 5755387036116998685340);
    lemma_short_code_plain("SBRN"@);
    assert(code_of(STATIONS@[33]) == "SFIA"@ && key_of(STATIONS@, 33) == 4796156027624820310684);
    lemma_short_code_plain("SFIA"@);
    assert(code_of(STATIONS@[34]) == "MLBR"@ && key_of(STATIONS@, 34) == 6050534378346565861996);
    lemma_short_code_plain("MLBR"@);
    assert(code_of(STATIONS@[35]) == "WOAK"@ && key_of(STATIONS@, 35) == 5534025509098376659644);
    lemma_short_code_plain("WOAK"@);
    assert(code_of(STATIONS@[36]) == "12TH"@ && key_of(STATIONS@, 36) == 5312665248716445188492);
    lemma_short_code_plain("12TH"@);
    assert(code_of(STATIONS@[37]) == "19TH"@ && key_of(STATIONS@, 37) == 5312665248716562629004);
    lemma_short_code_plain("19TH"@);
    assert(code_of(STATIONS@[38]) == "MCAR"@ && key_of(STATIONS@, 38) == 6050534343162042778220);
    lemma_short_code_plain("MCAR"@);
    assert(code_of(STATIONS@[39]) == "ASHB"@ && key_of(STATIONS@, 39) == 4869942968735504531980);
    lemma_short_code_plain("ASHB"@);
    assert(code_of(STATIONS@[40]) == "DBRK"@ && key_of(STATIONS@, 40) == 5534026107232484065828);
    lemma_short_code_plain("DBRK"@);
    assert(code_of(STATIONS@[41]) == "NBRK"@ && key_of(STATIONS@, 41) == 5534026107232484065908);
    lemma_short_code_plain("NBRK"@);
    assert(code_of(STATIONS@[42]) == "PLZA"@ && key_of(STATIONS@, 42) == 4796156625759246484100);
    lemma_short_code_plain("PLZA"@);
    assert(code_of(STATIONS@[43]) == "DELN"@ && key_of(STATIONS@, 43) == 5755386825010816483876);
    lemma_short_code_plain("DELN"@);
    assert(code_of(STATIONS@[44]) == "RICH"@ && key_of(STATIONS@, 44) == 5312664650582505554580);
    lemma_short_code_plain("RICH"@);
    assert(code_of(STATIONS@[45]) == "ROCK"@ && key_of(STATIONS@, 45) == 5534025579467120837268);
    lemma_short_code_plain("ROCK"@);
    assert(code_of(STATIONS@[46]) == "ORIN"@ && key_of(STATIONS@, 46) == 5755386719457918321276);
    lemma_short_code_plain("ORIN"@);
    assert(code_of(STATIONS@[47]) == "LAFY"@ && key_of(STATIONS@, 47) == 6567043353147737113188);
    lemma_short_code_plain("LAFY"@);
    assert(code_of(STATIONS@[48]) == "WCRK"@ && key_of(STATIONS@, 48) == 5534026107232500843196);
    lemma_short_code_plain("WCRK"@);
    assert(code_of(STATIONS@[49]) == "PHIL"@ && key_of(STATIONS@, 49) == 5607812766868074136196);
    lemma_short_code_plain("PHIL"@);
    assert(code_of(STATIONS@[50]) == "CONC"@ && key_of(STATIONS@, 50) == 4943730156136508162588);
    lemma_short_code_plain("CONC"@);
    assert(code_of(STATIONS@[51]) == "NCON"@ && key_of(STATIONS@, 51) == 5755386930563899196020);
    lemma_short_code_plain("NCON"@);
    assert(code_of(STATIONS@[52]) == "PITT"@ && key_of(STATIONS@, 52) == 6198108964254889542276);
    lemma_short_code_plain("PITT"@);
    assert(code_of(STATIONS@[53]) == "PCTR"@ && key_of(STATIONS@, 53) == 6050535011665112466052);
    lemma_short_code_plain("PCTR"@);
    assert(code_of(STATIONS@[54]) == "ANTC"@ && key_of(STATIONS@, 54) == 4943730367242723918348);
    lemma_short_code_plain("ANTC"@);
    assert(code_of(STATIONS@[55]) == "LAKE"@ && key_of(STATIONS@, 55) == 5091304003172833428068);
    lemma_short_code_plain("LAKE"@);
    assert(code_of(STATIONS@[56]) == "FTVL"@ && key_of(STATIONS@, 56) == 5607813224265112617524);
    lemma_short_code_plain("FTVL"@);
    assert(code_of(STATIONS@[57]) == "COLS"@ && key_of(STATIONS@, 57) == 6124321706485175288348);
    lemma_short_code_plain("COLS"@);
    assert(code_of(STATIONS@[58]) == "SANL"@ && key_of(STATIONS@, 58) == 5607812942789817139868);
    lemma_short_code_plain("SANL"@);
    assert(code_of(STATIONS@[59]) == "BAYF"@ && key_of(STATIONS@, 59) == 5165091472048880878100);
    lemma_short_code_plain("BAYF"@);
    assert(code_of(STATIONS@[60]) == "HAYW"@ && key_of(STATIONS@, 60) == 6419470069061130388036);
    lemma_short_code_plain("HAYW"@);
    assert(code_of(STATIONS@[61]) == "SHAY"@ && key_of(STATIONS@, 61) == 6567043177225994109596);
    lemma_short_code_plain("SHAY"@);
    assert(code_of(STATIONS@[62]) == "UCTY"@ && key_of(STATIONS@, 62) == 6567043845728979911340);
    lemma_short_code_plain("UCTY"@);
    assert(code_of(STATIONS@[63]) == "FRMT"@ && key_of(STATIONS@, 63) == 6198108717964435915316);
    lemma_short_code_plain("FRMT"@);
    assert(code_of(STATIONS@[64]) == "WARM"@ && key_of(STATIONS@, 64) == 5681600059822143701692);
    lemma_short_code_plain("WARM"@);
    assert(code_of(STATIONS@[65]) == "MLPT"@ && key_of(STATIONS@, 65) == 6198108823517451518572);
    lemma_short_code_plain("MLPT"@);
    assert(code_of(STATIONS@[66]) == "BERY"@ && key_of(STATIONS@, 66) == 6567043775360269287956);
    lemma_short_code_plain("BERY"@);
    assert(code_of(STATIONS@[67]) == "CAST"@ && key_of(STATIONS@, 67) == 6198108929070383235612);
    lemma_short_code_plain("CAST"@);
    assert(code_of(STATIONS@[68]) == "WDUB"@ && key_of(STATIONS@, 68) == 4869943426132090028732);
    lemma_short_code_plain("WDUB"@);
    assert(code_of(STATIONS@[69]) == "DUBL"@ && key_of(STATIONS@, 69) == 5607812520577687618084);
    lemma_short_code_plain("DUBL"@);
    assert(code_of(STATIONS@[70]) == "OAKL"@ && key_of(STATIONS@, 70) == 5607812837236700873340);
    lemma_short_code_plain("OAKL"@);
    assert forall|i: int, j: int| 0 <= i < j < STATIONS@.len() implies code_of(
        #[trigger] STATIONS@[i],
    ) != code_of(#[trigger] STATIONS@[j]) by {
        assert(key_of(STATIONS@, i) != key_of(STATIONS@, j));
    }
}

/// The alternate station list is well formed.
pub proof fn lemma_alternate_stations_well_formed()
    ensures
        well_formed(ALTERNATE_STATIONS@),
{
    reveal_strlit("A10");
    reveal_strlit("A20");
    reveal_strlit("A30");
    reveal_strlit("A40");
    reveal_strlit("A50");
    reveal_strlit("A60");
    reveal_strlit("A70");
    reveal_strlit("A80");
    reveal_strlit("L10");
    reveal_strlit("L20");
    reveal_strlit("L30");
    reveal_strlit("L40");
    reveal_strlit("M10");
    reveal_strlit("M16");
    reveal_strlit("M20");
    reveal_strlit("M30");
    reveal_strlit("M40");
    reveal_strlit("M50");
    reveal_strlit("M60");
    reveal_strlit("M70");
    reveal_strlit("M80");
    reveal_strlit("COLM");
    reveal_strlit("SSAN");
    reveal_strlit("SBRN");
    reveal_strlit("SFIA");
    reveal_strlit("MLBR");
    reveal_strlit("ASHB");
    reveal_strlit("DBRK");
    reveal_strlit("NBRK");
    reveal_strlit("PLZA");
    reveal_strlit("DELN");
    reveal_strlit("RICH");
    reveal_strlit("ROCK");
    reveal_strlit("ORIN");
    reveal_strlit("LAFY");
    reveal_strlit("WCRK");
    reveal_strlit("PHIL");
    reveal_strlit("CONC");
    reveal_strlit("NCON");
    reveal_strlit("PITT");
    reveal_strlit("PCTR");
    reveal_strlit("ANTC");
    reveal_strlit("LAKE");
    reveal_strlit("FTVL");
    reveal_strlit("COLS");
    reveal_strlit("SANL");
    reveal_strlit("BAYF");
    reveal_strlit("HAYW");
    reveal_strlit("SHAY");
    reveal_strlit("UCTY");
    reveal_strlit("FRMT");
    reveal_strlit("WARM");
    reveal_strlit("MLPT");
    reveal_strlit("BERY");
    reveal_strlit("CAST");
    reveal_strlit("WDUB");
    reveal_strlit("DUBL");
    reveal_strlit("OAKL");
    assert(code_of(ALTERNATE_STATIONS@[0]) == "A10"@
        && key_of(ALTERNATE_STATIONS@, 0) == 1688850682348043);
    lemma_short_code_plain("A10"@);
    assert(code_of(ALTERNATE_STATIONS@[1]) == "A20"@
        && key_of(ALTERNATE_STATIONS@, 1) == 1688850699125259);
    lemma_short_code_plain("A20"@);
    assert(code_of(ALTERNATE_STATIONS@[2]) == "A30"@
        && key_of(ALTERNATE_STATIONS@, 2) == 1688850715902475);
    lemma_short_code_plain("A30"@);
    assert(code_of(ALTERNATE_STATIONS@[3]) == "A40"@
        && key_of(ALTERNATE_STATIONS@, 3) == 1688850732679691);
    lemma_short_code_plain("A40"@);
    assert(code_of(ALTERNATE_STATIONS@[4]) == "A50"@
        && key_of(ALTERNATE_STATIONS@, 4) == 1688850749456907);
    lemma_short_code_plain("A50"@);
    assert(code_of(ALTERNATE_STATIONS@[5]) == "A60"@
        && key_of(ALTERNATE_STATIONS@, 5) == 1688850766234123);
    lemma_short_code_plain("A60"@);
    assert(code_of(ALTERNATE_STATIONS@[6]) == "A70"@
        && key_of(ALTERNATE_STATIONS@, 6) == 1688850783011339);
    lemma_short_code_plain("A70"@);
    assert(code_of(ALTERNATE_STATIONS@[7]) == "A80"@
        && key_of(ALTERNATE_STATIONS@, 7) == 1688850799788555);
    lemma_short_code_plain("A80"@);
    assert(code_of(ALTERNATE_STATIONS@[8]) == "L10"@
        && key_of(ALTERNATE_STATIONS@, 8) == 1688850682348131);
    lemma_short_code_plain("L10"@);
    assert(code_of(ALTERNATE_STATIONS@[9]) == "L20"@
        && key_of(ALTERNATE_STATIONS@, 9) == 1688850699125347);
    lemma_short_code_plain("L20"@);
    assert(code_of(ALTERNATE_STATIONS@[10]) == "L30"@
        && key_of(ALTERNATE_STATIONS@, 10) == 1688850715902563);
    lemma_short_code_plain("L30"@);
    assert(code_of(ALTERNATE_STATIONS@[11]) == "L40"@
        && key_of(ALTERNATE_STATIONS@, 11) == 1688850732679779);
    lemma_short_code_plain("L40"@);
    assert(code_of(ALTERNATE_STATIONS@[12]) == "M10"@
        && key_of(ALTERNATE_STATIONS@, 12) == 1688850682348139);
    lemma_short_code_plain("M10"@);
    assert(code_of(ALTERNATE_STATIONS@[13]) == "M16"@
        && key_of(ALTERNATE_STATIONS@, 13) == 1899956914881131);
    lemma_short_code_plain("M16"@);
    assert(code_of(ALTERNATE_STATIONS@[14]) == "M20"@
        && key_of(ALTERNATE_STATIONS@, 14) == 1688850699125355);
    lemma_short_code_plain("M20"@);
    assert(code_of(ALTERNATE_STATIONS@[15]) == "M30"@
        && key_of(ALTERNATE_STATIONS@, 15) == 1688850715902571);
    lemma_short_code_plain("M30"@);
    assert(code_of(ALTERNATE_STATIONS@[16]) == "M40"@
        && key_of(ALTERNATE_STATIONS@, 16) == 1688850732679787);
    lemma_short_code_plain("M40"@);
    assert(code_of(ALTERNATE_STATIONS@[17]) == "M50"@
        && key_of(ALTERNATE_STATIONS@, 17) == 1688850749457003);
    lemma_short_code_plain("M50"@);
    assert(code_of(ALTERNATE_STATIONS@[18]) == "M60"@
        && key_of(ALTERNATE_STATIONS@, 18) == 1688850766234219);
    lemma_short_code_plain("M60"@);
    assert(code_of(ALTERNATE_STATIONS@[19]) == "M70"@
        && key_of(ALTERNATE_STATIONS@, 19) == 1688850783011435);
    lemma_short_code_plain("M70"@);
    assert(code_of(ALTERNATE_STATIONS@[20]) == "M80"@
        && key_of(ALTERNATE_STATIONS@, 20) == 1688850799788651);
    lemma_short_code_plain("M80"@);
    assert(code_of(ALTERNATE_STATIONS@[21]) == "COLM"@
        && key_of(ALTERNATE_STATIONS@, 21) == 5681599848716146049564);
    lemma_short_code_plain("COLM"@);
    assert(code_of(ALTERNATE_STATIONS@[22]) == "SSAN"@
        && key_of(ALTERNATE_STATIONS@, 22) == 5755386437982958387868);
    lemma_short_code_plain("SSAN"@);
    assert(code_of(ALTERNATE_STATIONS@[23]) == "SBRN"@
        && key_of(ALTERNATE_STATIONS@, 23) == 5755387036116998685340);
    lemma_short_code_plain("SBRN"@);
    assert(code_of(ALTERNATE_STATIONS@[24]) == "SFIA"@
        && key_of(ALTERNATE_STATIONS@, 24) == 4796156027624820310684);
    lemma_short_code_plain("SFIA"@);
    assert(code_of(ALTERNATE_STATIONS@[25]) == "MLBR"@
        && key_of(ALTERNATE_STATIONS@, 25) == 6050534378346565861996);
    lemma_short_code_plain("MLBR"@);
    assert(code_of(ALTERNATE_STATIONS@[26]) == "ASHB"@
        && key_of(ALTERNATE_STATIONS@, 26) == 4869942968735504531980);
    lemma_short_code_plain("ASHB"@);
    assert(code_of(ALTERNATE_STATIONS@[27]) == "DBRK"@
        && key_of(ALTERNATE_STATIONS@, 27) == 5534026107232484065828);
    lemma_short_code_plain("DBRK"@);
    assert(code_of(ALTERNATE_STATIONS@[28]) == "NBRK"@
        && key_of(ALTERNATE_STATIONS@, 28) == 5534026107232484065908);
    lemma_short_code_plain("NBRK"@);
    assert(code_of(ALTERNATE_STATIONS@[29]) == "PLZA"@
        && key_of(ALTERNATE_STATIONS@, 29) == 4796156625759246484100);
    lemma_short_code_plain("PLZA"@);
    assert(code_of(ALTERNATE_STATIONS@[30]) == "DELN"@
        && key_of(ALTERNATE_STATIONS@, 30) == 5755386825010816483876);
    lemma_short_code_plain("DELN"@);
    assert(code_of(ALTERNATE_STATIONS@[31]) == "RICH"@
        && key_of(ALTERNATE_STATIONS@, 31) == 5312664650582505554580);
    lemma_short_code_plain("RICH"@);
    assert(code_of(ALTERNATE_STATIONS@[32]) == "ROCK"@
        && key_of(ALTERNATE_STATIONS@, 32) == 5534025579467120837268);
    lemma_short_code_plain("ROCK"@);
    assert(code_of(ALTERNATE_STATIONS@[33]) == "ORIN"@
        && key_of(ALTERNATE_STATIONS@, 33) == 5755386719457918321276);
    lemma_short_code_plain("ORIN"@);
    assert(code_of(ALTERNATE_STATIONS@[34]) == "LAFY"@
        && key_of(ALTERNATE_STATIONS@, 34) == 6567043353147737113188);
    lemma_short_code_plain("LAFY"@);
    assert(code_of(ALTERNATE_STATIONS@[35]) == "WCRK"@
        && key_of(ALTERNATE_STATIONS@, 35) == 5534026107232500843196);
    lemma_short_code_plain("WCRK"@);
    assert(code_of(ALTERNATE_STATIONS@[36]) == "PHIL"@
        && key_of(ALTERNATE_STATIONS@, 36) == 5607812766868074136196);
    lemma_short_code_plain("PHIL"@);
    assert(code_of(ALTERNATE_STATIONS@[37]) == "CONC"@
        && key_of(ALTERNATE_STATIONS@, 37) == 4943730156136508162588);
    lemma_short_code_plain("CONC"@);
    assert(code_of(ALTERNATE_STATIONS@[38]) == "NCON"@
        && key_of(ALTERNATE_STATIONS@, 38) == 5755386930563899196020);
    lemma_short_code_plain("NCON"@);
    assert(code_of(ALTERNATE_STATIONS@[39]) == "PITT"@
        && key_of(ALTERNATE_STATIONS@, 39) == 6198108964254889542276);
    lemma_short_code_plain("PITT"@);
    assert(code_of(ALTERNATE_STATIONS@[40]) == "PCTR"@
        && key_of(ALTERNATE_STATIONS@, 40) == 6050535011665112466052);
    lemma_short_code_plain("PCTR"@);
    assert(code_of(ALTERNATE_STATIONS@[41]) == "ANTC"@
        && key_of(ALTERNATE_STATIONS@, 41) == 4943730367242723918348);
    lemma_short_code_plain("ANTC"@);
    assert(code_of(ALTERNATE_STATIONS@[42]) == "LAKE"@
        && key_of(ALTERNATE_STATIONS@, 42) == 5091304003172833428068);
    lemma_short_code_plain("LAKE"@);
    assert(code_of(ALTERNATE_STATIONS@[43]) == "FTVL"@
        && key_of(ALTERNATE_STATIONS@, 43) == 5607813224265112617524);
    lemma_short_code_plain("FTVL"@);
    assert(code_of(ALTERNATE_STATIONS@[44]) == "COLS"@
        && key_of(ALTERNATE_STATIONS@, 44) == 6124321706485175288348);
    lemma_short_code_plain("COLS"@);
    assert(code_of(ALTERNATE_STATIONS@[45]) == "SANL"@
        && key_of(ALTERNATE_STATIONS@, 45) == 5607812942789817139868);
    lemma_short_code_plain("SANL"@);
    assert(code_of(ALTERNATE_STATIONS@[46]) == "BAYF"@
        && key_of(ALTERNATE_STATIONS@, 46) == 5165091472048880878100);
    lemma_short_code_plain("BAYF"@);
    assert(code_of(ALTERNATE_STATIONS@[47]) == "HAYW"@
        && key_of(ALTERNATE_STATIONS@, 47) == 6419470069061130388036);
    lemma_short_code_plain("HAYW"@);
    assert(code_of(ALTERNATE_STATIONS@[48]) == "SHAY"@
        && key_of(ALTERNATE_STATIONS@, 48) == 6567043177225994109596);
    lemma_short_code_plain("SHAY"@);
    assert(code_of(ALTERNATE_STATIONS@[49]) == "UCTY"@
        && key_of(ALTERNATE_STATIONS@, 49) == 6567043845728979911340);
    lemma_short_code_plain("UCTY"@);
    assert(code_of(ALTERNATE_STATIONS@[50]) == "FRMT"@
        && key_of(ALTERNATE_STATIONS@, 50) == 6198108717964435915316);
    lemma_short_code_plain("FRMT"@);
    assert(code_of(ALTERNATE_STATIONS@[51]) == "WARM"@
        && key_of(ALTERNATE_STATIONS@, 51) == 5681600059822143701692);
    lemma_short_code_plain("WARM"@);
    assert(code_of(ALTERNATE_STATIONS@[52]) == "MLPT"@
        && key_of(ALTERNATE_STATIONS@, 52) == 6198108823517451518572);
    lemma_short_code_plain("MLPT"@);
    assert(code_of(ALTERNATE_STATIONS@[53]) == "BERY"@
        && key_of(ALTERNATE_STATIONS@, 53) == 6567043775360269287956);
    lemma_short_code_plain("BERY"@);
    assert(code_of(ALTERNATE_STATIONS@[54]) == "CAST"@
        && key_of(ALTERNATE_STATIONS@, 54) == 6198108929070383235612);
    lemma_short_code_plain("CAST"@);
    assert(code_of(ALTERNATE_STATIONS@[55]) == "WDUB"@
        && key_of(ALTERNATE_STATIONS@, 55) == 4869943426132090028732);
    lemma_short_code_plain("WDUB"@);
    assert(code_of(ALTERNATE_STATIONS@[56]) == "DUBL"@
        && key_of(ALTERNATE_STATIONS@, 56) == 5607812520577687618084);
    lemma_short_code_plain("DUBL"@);
    assert(code_of(ALTERNATE_STATIONS@[57]) == "OAKL"@
        && key_of(ALTERNATE_STATIONS@, 57) == 5607812837236700873340);
    lemma_short_code_plain("OAKL"@);
    assert forall|i: int, j: int| 0 <= i < j < ALTERNATE_STATIONS@.len() implies code_of(
        #[trigger] ALTERNATE_STATIONS@[i],
    ) != code_of(#[trigger] ALTERNATE_STATIONS@[j]) by {
        assert(key_of(ALTERNATE_STATIONS@, i) != key_of(ALTERNATE_STATIONS@, j));
    }
}

/// Two texts of different length, or with different characters at one
/// position, are different texts.
proof fn lemma_texts_differ(a: Seq<char>, b: Seq<char>, at: int)
    requires
        a.len() != b.len() || (0 <= at < a.len() && a[at] != b[at]),
    ensures
        a != b,
{
}

/// The short names of the alternate list are names of no record of the
/// canonical list.
proof fn lemma_short_names_are_new(j: int)
    requires
        0 <= j < STATIONS@.len(),
    ensures
        name_of(ALTERNATE_STATIONS@[12]) != name_of(STATIONS@[j]),
        name_of(ALTERNATE_STATIONS@[13]) != name_of(STATIONS@[j]),
        name_of(ALTERNATE_STATIONS@[14]) != name_of(STATIONS@[j]),
        name_of(ALTERNATE_STATIONS@[15]) != name_of(STATIONS@[j]),
        name_of(ALTERNATE_STATIONS@[16]) != name_of(STATIONS@[j]),
        name_of(ALTERNATE_STATIONS@[17]) != name_of(STATIONS@[j]),
        name_of(ALTERNATE_STATIONS@[18]) != name_of(STATIONS@[j]),
        name_of(ALTERNATE_STATIONS@[19]) != name_of(STATIONS@[j]),
{
    reveal_strlit("Embarcadero (SF)");
    reveal_strlit("Montgomery St. (SF)");
    reveal_strlit("Powell St. (SF)");
    reveal_strlit("Civic Center (SF)");
    reveal_strlit("24th St. Mission (SF)");
    reveal_strlit("16th St. Mission (SF)");
    reveal_strlit("Glen Park (SF)");
    reveal_strlit("Balboa Park (SF)");
    reveal_strlit("MacArthur (Oakland)");
    reveal_strlit("19th St. Oakland");
    reveal_strlit("12th St. Oakland City Center");
    reveal_strlit("West Oakland");
    reveal_strlit("Daly City");
    reveal_strlit("Colma");
    reveal_strlit("South San Francisco");
    reveal_strlit("San Bruno");
    reveal_strlit("San Francisco Int'l Airport");
    reveal_strlit("Millbrae");
    reveal_strlit("Ashby (Berkeley)");
    reveal_strlit("Downtown Berkeley");
    reveal_strlit("North Berkeley");
    reveal_strlit("El Cerrito Plaza");
    reveal_strlit("El Cerrito del Norte");
    reveal_strlit("Richmond");
    reveal_strlit("Rockridge (Oakland)");
    reveal_strlit("Orinda");
    reveal_strlit("Lafayette");
    reveal_strlit("Walnut Creek");
    reveal_strlit("Pleasant Hill");
    reveal_strlit("Concord");
    reveal_strlit("North Concord/Martinez");
    reveal_strlit("Pittsburg/Bay Point");
    reveal_strlit("Pittsburg Center");
    reveal_strlit("Antioch");
    reveal_strlit("Lake Merritt (Oakland)");
    reveal_strlit("Fruitvale (Oakland)");
    reveal_strlit("Coliseum");
    reveal_strlit("San Leandro");
    reveal_strlit("Bay Fair (San Leandro)");
    reveal_strlit("Hayward");
    reveal_strlit("South Hayward");
    reveal_strlit("Union City");
    reveal_strlit("Fremont");
    reveal_strlit("Warm Springs/South Fremont");
    reveal_strlit("Milpitas");
    reveal_strlit("Berryessa / North San Jose");
    reveal_strlit("Castro Valley");
    reveal_strlit("West Dublin");
    reveal_strlit("Dublin/Pleasanton");
    reveal_strlit("Oakland Int'l Airport");
    reveal_strlit("Embarcadero");
    reveal_strlit("Montgomery St.");
    reveal_strlit("Powell St.");
    reveal_strlit("Civic Center");
    reveal_strlit("16th St. Mission");
    reveal_strlit("24th St. Mission");
    reveal_strlit("Glen Park");
    reveal_strlit("Balboa Park");
    assert(name_of(ALTERNATE_STATIONS@[12]) == "Embarcadero"@);
    assert(name_of(ALTERNATE_STATIONS@[13]) == "Montgomery St."@);
    assert(name_of(ALTERNATE_STATIONS@[14]) == "Powell St."@);
    assert(name_of(ALTERNATE_STATIONS@[15]) == "Civic Center"@);
    assert(name_of(ALTERNATE_STATIONS@[16]) == "16th St. Mission"@);
    assert(name_of(ALTERNATE_STATIONS@[17]) == "24th St. Mission"@);
    assert(name_of(ALTERNATE_STATIONS@[18]) == "Glen Park"@);
    assert(name_of(ALTERNATE_STATIONS@[19]) == "Balboa Park"@);
    lemma_texts_differ("Embarcadero"@, "Embarcadero (SF)"@, 0);
    lemma_texts_differ("Montgomery St."@, "Embarcadero (SF)"@, 0);
    lemma_texts_differ("Powell St."@, "Embarcadero (SF)"@, 0);
    lemma_texts_differ("Civic Center"@, "Embarcadero (SF)"@, 0);
    lemma_texts_differ("16th St. Mission"@, "Embarcadero (SF)"@, 0);
    lemma_texts_differ("24th St. Mission"@, "Embarcadero (SF)"@, 0);
    lemma_texts_differ("Glen Park"@, "Embarcadero (SF)"@, 0);
    lemma_texts_differ("Balboa Park"@, "Embarcadero (SF)"@, 0);
    lemma_texts_differ("Embarcadero"@, "Montgomery St. (SF)"@, 0);
    lemma_texts_differ("Montgomery St."@, "Montgomery St. (SF)"@, 0);
    lemma_texts_differ("Powell St."@, "Montgomery St. (SF)"@, 0);
    lemma_texts_differ("Civic Center"@, "Montgomery St. (SF)"@, 0);
    lemma_texts_differ("16th St. Mission"@, "Montgomery St. (SF)"@, 0);
    lemma_texts_differ("24th St. Mission"@, "Montgomery St. (SF)"@, 0);
    lemma_texts_differ("Glen Park"@, "Montgomery St. (SF)"@, 0);
    lemma_texts_differ("Balboa Park"@, "Montgomery St. (SF)"@, 0);
    lemma_texts_differ("Embarcadero"@, "Powell St. (SF)"@, 0);
    lemma_texts_differ("Montgomery St."@, "Powell St. (SF)"@, 0);
    lemma_texts_differ("Powell St."@, "Powell St. (SF)"@, 0);
    lemma_texts_differ("Civic Center"@, "Powell St. (SF)"@, 0);
    lemma_texts_differ("16th St. Mission"@, "Powell St. (SF)"@, 0);
    lemma_texts_differ("24th St. Mission"@, "Powell St. (SF)"@, 0);
    lemma_texts_differ("Glen Park"@, "Powell St. (SF)"@, 0);
    lemma_texts_differ("Balboa Park"@, "Powell St. (SF)"@, 0);
    lemma_texts_differ("Embarcadero"@, "Civic Center (SF)"@, 0);
    lemma_texts_differ("Montgomery St."@, "Civic Center (SF)"@, 0);
    lemma_texts_differ("Powell St."@, "Civic Center (SF)"@, 0);
    lemma_texts_differ("Civic Center"@, "Civic Center (SF)"@, 0);
    lemma_texts_differ("16th St. Mission"@, "Civic Center (SF)"@, 0);
    lemma_texts_differ("24th St. Mission"@, "Civic Center (SF)"@, 0);
    lemma_texts_differ("Glen Park"@, "Civic Center (SF)"@, 0);
    lemma_texts_differ("Balboa Park"@, "Civic Center (SF)"@, 0);
    lemma_texts_differ("Embarcadero"@, "24th St. Mission (SF)"@, 0);
    lemma_texts_differ("Montgomery St."@, "24th St. Mission (SF)"@, 0);
    lemma_texts_differ("Powell St."@, "24th St. Mission (SF)"@, 0);
    lemma_texts_differ("Civic Center"@, "24th St. Mission (SF)"@, 0);
    lemma_texts_differ("16th St. Mission"@, "24th St. Mission (SF)"@, 0);
    lemma_texts_differ("24th St. Mission"@, "24th St. Mission (SF)"@, 0);
    lemma_texts_differ("Glen Park"@, "24th St. Mission (SF)"@, 0);
    lemma_texts_differ("Balboa Park"@, "24th St. Mission (SF)"@, 0);
    lemma_texts_differ("Embarcadero"@, "16th St. Mission (SF)"@, 0);
    lemma_texts_differ("Montgomery St."@, "16th St. Mission (SF)"@, 0);
    lemma_texts_differ("Powell St."@, "16th St. Mission (SF)"@, 0);
    lemma_texts_differ("Civic Center"@, "16th St. Mission (SF)"@, 0);
    lemma_texts_differ("16th St. Mission"@, "16th St. Mission (SF)"@, 0);
    lemma_texts_differ("24th St. Mission"@, "16th St. Mission (SF)"@, 0);
    lemma_texts_differ("Glen Park"@, "16th St. Mission (SF)"@, 0);
    lemma_texts_differ("Balboa Park"@, "16th St. Mission (SF)"@, 0);
    lemma_texts_differ("Embarcadero"@, "Glen Park (SF)"@, 0);
    lemma_texts_differ("Montgomery St."@, "Glen Park (SF)"@, 0);
    lemma_texts_differ("Powell St."@, "Glen Park (SF)"@, 0);
    lemma_texts_differ("Civic Center"@, "Glen Park (SF)"@, 0);
    lemma_texts_differ("16th St. Mission"@, "Glen Park (SF)"@, 0);
    lemma_texts_differ("24th St. Mission"@, "Glen Park (SF)"@, 0);
    lemma_texts_differ("Glen Park"@, "Glen Park (SF)"@, 0);
    lemma_texts_differ("Balboa Park"@, "Glen Park (SF)"@, 0);
    lemma_texts_differ("Embarcadero"@, "Balboa Park (SF)"@, 0);
    lemma_texts_differ("Montgomery St."@, "Balboa Park (SF)"@, 0);
    lemma_texts_differ("Powell St."@, "Balboa Park (SF)"@, 0);
    lemma_texts_differ("Civic Center"@, "Balboa Park (SF)"@, 0);
    lemma_texts_differ("16th St. Mission"@, "Balboa Park (SF)"@, 0);
    lemma_texts_differ("24th St. Mission"@, "Balboa Park (SF)"@, 0);
    lemma_texts_differ("Glen Park"@, "Balboa Park (SF)"@, 0);
    lemma_texts_differ("Balboa Park"@, "Balboa Park (SF)"@, 0);
    lemma_texts_differ("Embarcadero"@, "MacArthur (Oakland)"@, 0);
    lemma_texts_differ("Montgomery St."@, "MacArthur (Oakland)"@, 0);
    lemma_texts_differ("Powell St."@, "MacArthur (Oakland)"@, 0);
    lemma_texts_differ("Civic Center"@, "MacArthur (Oakland)"@, 0);
    lemma_texts_differ("16th St. Mission"@, "MacArthur (Oakland)"@, 0);
    lemma_texts_differ("24th St. Mission"@, "MacArthur (Oakland)"@, 0);
    lemma_texts_differ("Glen Park"@, "MacArthur (Oakland)"@, 0);
    lemma_texts_differ("Balboa Park"@, "MacArthur (Oakland)"@, 0);
    lemma_texts_differ("Embarcadero"@, "19th St. Oakland"@, 0);
    lemma_texts_differ("Montgomery St."@, "19th St. Oakland"@, 0);
    lemma_texts_differ("Powell St."@, "19th St. Oakland"@, 0);
    lemma_texts_differ("Civic Center"@, "19th St. Oakland"@, 0);
    lemma_texts_differ("16th St. Mission"@, "19th St. Oakland"@, 1);
    lemma_texts_differ("24th St. Mission"@, "19th St. Oakland"@, 0);
    lemma_texts_differ("Glen Park"@, "19th St. Oakland"@, 0);
    lemma_texts_differ("Balboa Park"@, "19th St. Oakland"@, 0);
    lemma_texts_differ("Embarcadero"@, "12th St. Oakland City Center"@, 0);
    lemma_texts_differ("Montgomery St."@, "12th St. Oakland City Center"@, 0);
    lemma_texts_differ("Powell St."@, "12th St. Oakland City Center"@, 0);
    lemma_texts_differ("Civic Center"@, "12th St. Oakland City Center"@, 0);
    lemma_texts_differ("16th St. Mission"@, "12th St. Oakland City Center"@, 0);
    lemma_texts_differ("24th St. Mission"@, "12th St. Oakland City Center"@, 0);
    lemma_texts_differ("Glen Park"@, "12th St. Oakland City Center"@, 0);
    lemma_texts_differ("Balboa Park"@, "12th St. Oakland City Center"@, 0);
    lemma_texts_differ("Embarcadero"@, "West Oakland"@, 0);
    lemma_texts_differ("Montgomery St."@, "West Oakland"@, 0);
    lemma_texts_differ("Powell St."@, "West Oakland"@, 0);
    lemma_texts_differ("Civic Center"@, "West Oakland"@, 0);
    lemma_texts_differ("16th St. Mission"@, "West Oakland"@, 0);
    lemma_texts_differ("24th St. Mission"@, "West Oakland"@, 0);
    lemma_texts_differ("Glen Park"@, "West Oakland"@, 0);
    lemma_texts_differ("Balboa Park"@, "West Oakland"@, 0);
    lemma_texts_differ("Embarcadero"@, "Daly City"@, 0);
    lemma_texts_differ("Montgomery St."@, "Daly City"@, 0);
    lemma_texts_differ("Powell St."@, "Daly City"@, 0);
    lemma_texts_differ("Civic Center"@, "Daly City"@, 0);
    lemma_texts_differ("16th St. Mission"@, "Daly City"@, 0);
    lemma_texts_differ("24th St. Mission"@, "Daly City"@, 0);
    lemma_texts_differ("Glen Park"@, "Daly City"@, 0);
    lemma_texts_differ("Balboa Park"@, "Daly City"@, 0);
    lemma_texts_differ("Embarcadero"@, "Colma"@, 0);
    lemma_texts_differ("Montgomery St."@, "Colma"@, 0);
    lemma_texts_differ("Powell St."@, "Colma"@, 0);
    lemma_texts_differ("Civic Center"@, "Colma"@, 0);
    lemma_texts_differ("16th St. Mission"@, "Colma"@, 0);
    lemma_texts_differ("24th St. Mission"@, "Colma"@, 0);
    lemma_texts_differ("Glen Park"@, "Colma"@, 0);
    lemma_texts_differ("Balboa Park"@, "Colma"@, 0);
    lemma_texts_differ("Embarcadero"@, "South San Francisco"@, 0);
    lemma_texts_differ("Montgomery St."@, "South San Francisco"@, 0);
    lemma_texts_differ("Powell St."@, "South San Francisco"@, 0);
    lemma_texts_differ("Civic Center"@, "South San Francisco"@, 0);
    lemma_texts_differ("16th St. Mission"@, "South San Francisco"@, 0);
    lemma_texts_differ("24th St. Mission"@, "South San Francisco"@, 0);
    lemma_texts_differ("Glen Park"@, "South San Francisco"@, 0);
    lemma_texts_differ("Balboa Park"@, "South San Francisco"@, 0);
    lemma_texts_differ("Embarcadero"@, "San Bruno"@, 0);
    lemma_texts_differ("Montgomery St."@, "San Bruno"@, 0);
    lemma_texts_differ("Powell St."@, "San Bruno"@, 0);
    lemma_texts_differ("Civic Center"@, "San Bruno"@, 0);
    lemma_texts_differ("16th St. Mission"@, "San Bruno"@, 0);
    lemma_texts_differ("24th St. Mission"@, "San Bruno"@, 0);
    lemma_texts_differ("Glen Park"@, "San Bruno"@, 0);
    lemma_texts_differ("Balboa Park"@, "San Bruno"@, 0);
    lemma_texts_differ("Embarcadero"@, "San Francisco Int'l Airport"@, 0);
    lemma_texts_differ("Montgomery St."@, "San Francisco Int'l Airport"@, 0);
    lemma_texts_differ("Powell St."@, "San Francisco Int'l Airport"@, 0);
    lemma_texts_differ("Civic Center"@, "San Francisco Int'l Airport"@, 0);
    lemma_texts_differ("16th St. Mission"@, "San Francisco Int'l Airport"@, 0);
    lemma_texts_differ("24th St. Mission"@, "San Francisco Int'l Airport"@, 0);
    lemma_texts_differ("Glen Park"@, "San Francisco Int'l Airport"@, 0);
    lemma_texts_differ("Balboa Park"@, "San Francisco Int'l Airport"@, 0);
    lemma_texts_differ("Embarcadero"@, "Millbrae"@, 0);
    lemma_texts_differ("Montgomery St."@, "Millbrae"@, 0);
    lemma_texts_differ("Powell St."@, "Millbrae"@, 0);
    lemma_texts_differ("Civic Center"@, "Millbrae"@, 0);
    lemma_texts_differ("16th St. Mission"@, "Millbrae"@, 0);
    lemma_texts_differ("24th St. Mission"@, "Millbrae"@, 0);
    lemma_texts_differ("Glen Park"@, "Millbrae"@, 0);
    lemma_texts_differ("Balboa Park"@, "Millbrae"@, 0);
    lemma_texts_differ("Embarcadero"@, "Ashby (Berkeley)"@, 0);
    lemma_texts_differ("Montgomery St."@, "Ashby (Berkeley)"@, 0);
    lemma_texts_differ("Powell St."@, "Ashby (Berkeley)"@, 0);
    lemma_texts_differ("Civic Center"@, "Ashby (Berkeley)"@, 0);
    lemma_texts_differ("16th St. Mission"@, "Ashby (Berkeley)"@, 0);
    lemma_texts_differ("24th St. Mission"@, "Ashby (Berkeley)"@, 0);
    lemma_texts_differ("Glen Park"@, "Ashby (Berkeley)"@, 0);
    lemma_texts_differ("Balboa Park"@, "Ashby (Berkeley)"@, 0);
    lemma_texts_differ("Embarcadero"@, "Downtown Berkeley"@, 0);
    lemma_texts_differ("Montgomery St."@, "Downtown Berkeley"@, 0);
    lemma_texts_differ("Powell St."@, "Downtown Berkeley"@, 0);
    lemma_texts_differ("Civic Center"@, "Downtown Berkeley"@, 0);
    lemma_texts_differ("16th St. Mission"@, "Downtown Berkeley"@, 0);
    lemma_texts_differ("24th St. Mission"@, "Downtown Berkeley"@, 0);
    lemma_texts_differ("Glen Park"@, "Downtown Berkeley"@, 0);
    lemma_texts_differ("Balboa Park"@, "Downtown Berkeley"@, 0);
    lemma_texts_differ("Embarcadero"@, "North Berkeley"@, 0);
    lemma_texts_differ("Montgomery St."@, "North Berkeley"@, 0);
    lemma_texts_differ("Powell St."@, "North Berkeley"@, 0);
    lemma_texts_differ("Civic Center"@, "North Berkeley"@, 0);
    lemma_texts_differ("16th St. Mission"@, "North Berkeley"@, 0);
    lemma_texts_differ("24th St. Mission"@, "North Berkeley"@, 0);
    lemma_texts_differ("Glen Park"@, "North Berkeley"@, 0);
    lemma_texts_differ("Balboa Park"@, "North Berkeley"@, 0);
    lemma_texts_differ("Embarcadero"@, "El Cerrito Plaza"@, 0);
    lemma_texts_differ("Montgomery St."@, "El Cerrito Plaza"@, 0);
    lemma_texts_differ("Powell St."@, "El Cerrito Plaza"@, 0);
    lemma_texts_differ("Civic Center"@, "El Cerrito Plaza"@, 0);
    lemma_texts_differ("16th St. Mission"@, "El Cerrito Plaza"@, 0);
    lemma_texts_differ("24th St. Mission"@, "El Cerrito Plaza"@, 0);
    lemma_texts_differ("Glen Park"@, "El Cerrito Plaza"@, 0);
    lemma_texts_differ("Balboa Park"@, "El Cerrito Plaza"@, 0);
    lemma_texts_differ("Embarcadero"@, "El Cerrito del Norte"@, 0);
    lemma_texts_differ("Montgomery St."@, "El Cerrito del Norte"@, 0);
    lemma_texts_differ("Powell St."@, "El Cerrito del Norte"@, 0);
    lemma_texts_differ("Civic Center"@, "El Cerrito del Norte"@, 0);
    lemma_texts_differ("16th St. Mission"@, "El Cerrito del Norte"@, 0);
    lemma_texts_differ("24th St. Mission"@, "El Cerrito del Norte"@, 0);
    lemma_texts_differ("Glen Park"@, "El Cerrito del Norte"@, 0);
    lemma_texts_differ("Balboa Park"@, "El Cerrito del Norte"@, 0);
    lemma_texts_differ("Embarcadero"@, "Richmond"@, 0);
    lemma_texts_differ("Montgomery St."@, "Richmond"@, 0);
    lemma_texts_differ("Powell St."@, "Richmond"@, 0);
    lemma_texts_differ("Civic Center"@, "Richmond"@, 0);
    lemma_texts_differ("16th St. Mission"@, "Richmond"@, 0);
    lemma_texts_differ("24th St. Mission"@, "Richmond"@, 0);
    lemma_texts_differ("Glen Park"@, "Richmond"@, 0);
    lemma_texts_differ("Balboa Park"@, "Richmond"@, 0);
    lemma_texts_differ("Embarcadero"@, "Rockridge (Oakland)"@, 0);
    lemma_texts_differ("Montgomery St."@, "Rockridge (Oakland)"@, 0);
    lemma_texts_differ("Powell St."@, "Rockridge (Oakland)"@, 0);
    lemma_texts_differ("Civic Center"@, "Rockridge (Oakland)"@, 0);
    lemma_texts_differ("16th St. Mission"@, "Rockridge (Oakland)"@, 0);
    lemma_texts_differ("24th St. Mission"@, "Rockridge (Oakland)"@, 0);
    lemma_texts_differ("Glen Park"@, "Rockridge (Oakland)"@, 0);
    lemma_texts_differ("Balboa Park"@, "Rockridge (Oakland)"@, 0);
    lemma_texts_differ("Embarcadero"@, "Orinda"@, 0);
    lemma_texts_differ("Montgomery St."@, "Orinda"@, 0);
    lemma_texts_differ("Powell St."@, "Orinda"@, 0);
    lemma_texts_differ("Civic Center"@, "Orinda"@, 0);
    lemma_texts_differ("16th St. Mission"@, "Orinda"@, 0);
    lemma_texts_differ("24th St. Mission"@, "Orinda"@, 0);
    lemma_texts_differ("Glen Park"@, "Orinda"@, 0);
    lemma_texts_differ("Balboa Park"@, "Orinda"@, 0);
    lemma_texts_differ("Embarcadero"@, "Lafayette"@, 0);
    lemma_texts_differ("Montgomery St."@, "Lafayette"@, 0);
    lemma_texts_differ("Powell St."@, "Lafayette"@, 0);
    lemma_texts_differ("Civic Center"@, "Lafayette"@, 0);
    lemma_texts_differ("16th St. Mission"@, "Lafayette"@, 0);
    lemma_texts_differ("24th St. Mission"@, "Lafayette"@, 0);
    lemma_texts_differ("Glen Park"@, "Lafayette"@, 0);
    lemma_texts_differ("Balboa Park"@, "Lafayette"@, 0);
    lemma_texts_differ("Embarcadero"@, "Walnut Creek"@, 0);
    lemma_texts_differ("Montgomery St."@, "Walnut Creek"@, 0);
    lemma_texts_differ("Powell St."@, "Walnut Creek"@, 0);
    lemma_texts_differ("Civic Center"@, "Walnut Creek"@, 0);
    lemma_texts_differ("16th St. Mission"@, "Walnut Creek"@, 0);
    lemma_texts_differ("24th St. Mission"@, "Walnut Creek"@, 0);
    lemma_texts_differ("Glen Park"@, "Walnut Creek"@, 0);
    lemma_texts_differ("Balboa Park"@, "Walnut Creek"@, 0);
    lemma_texts_differ("Embarcadero"@, "Pleasant Hill"@, 0);
    lemma_texts_differ("Montgomery St."@, "Pleasant Hill"@, 0);
    lemma_texts_differ("Powell St."@, "Pleasant Hill"@, 0);
    lemma_texts_differ("Civic Center"@, "Pleasant Hill"@, 0);
    lemma_texts_differ("16th St. Mission"@, "Pleasant Hill"@, 0);
    lemma_texts_differ("24th St. Mission"@, "Pleasant Hill"@, 0);
    lemma_texts_differ("Glen Park"@, "Pleasant Hill"@, 0);
    lemma_texts_differ("Balboa Park"@, "Pleasant Hill"@, 0);
    lemma_texts_differ("Embarcadero"@, "Concord"@, 0);
    lemma_texts_differ("Montgomery St."@, "Concord"@, 0);
    lemma_texts_differ("Powell St."@, "Concord"@, 0);
    lemma_texts_differ("Civic Center"@, "Concord"@, 0);
    lemma_texts_differ("16th St. Mission"@, "Concord"@, 0);
    lemma_texts_differ("24th St. Mission"@, "Concord"@, 0);
    lemma_texts_differ("Glen Park"@, "Concord"@, 0);
    lemma_texts_differ("Balboa Park"@, "Concord"@, 0);
    lemma_texts_differ("Embarcadero"@, "North Concord/Martinez"@, 0);
    lemma_texts_differ("Montgomery St."@, "North Concord/Martinez"@, 0);
    lemma_texts_differ("Powell St."@, "North Concord/Martinez"@, 0);
    lemma_texts_differ("Civic Center"@, "North Concord/Martinez"@, 0);
    lemma_texts_differ("16th St. Mission"@, "North Concord/Martinez"@, 0);
    lemma_texts_differ("24th St. Mission"@, "North Concord/Martinez"@, 0);
    lemma_texts_differ("Glen Park"@, "North Concord/Martinez"@, 0);
    lemma_texts_differ("Balboa Park"@, "North Concord/Martinez"@, 0);
    lemma_texts_differ("Embarcadero"@, "Pittsburg/Bay Point"@, 0);
    lemma_texts_differ("Montgomery St."@, "Pittsburg/Bay Point"@, 0);
    lemma_texts_differ("Powell St."@, "Pittsburg/Bay Point"@, 0);
    lemma_texts_differ("Civic Center"@, "Pittsburg/Bay Point"@, 0);
    lemma_texts_differ("16th St. Mission"@, "Pittsburg/Bay Point"@, 0);
    lemma_texts_differ("24th St. Mission"@, "Pittsburg/Bay Point"@, 0);
    lemma_texts_differ("Glen Park"@, "Pittsburg/Bay Point"@, 0);
    lemma_texts_differ("Balboa Park"@, "Pittsburg/Bay Point"@, 0);
    lemma_texts_differ("Embarcadero"@, "Pittsburg Center"@, 0);
    lemma_texts_differ("Montgomery St."@, "Pittsburg Center"@, 0);
    lemma_texts_differ("Powell St."@, "Pittsburg Center"@, 0);
    lemma_texts_differ("Civic Center"@, "Pittsburg Center"@, 0);
    lemma_texts_differ("16th St. Mission"@, "Pittsburg Center"@, 0);
    lemma_texts_differ("24th St. Mission"@, "Pittsburg Center"@, 0);
    lemma_texts_differ("Glen Park"@, "Pittsburg Center"@, 0);
    lemma_texts_differ("Balboa Park"@, "Pittsburg Center"@, 0);
    lemma_texts_differ("Embarcadero"@, "Antioch"@, 0);
    lemma_texts_differ("Montgomery St."@, "Antioch"@, 0);
    lemma_texts_differ("Powell St."@, "Antioch"@, 0);
    lemma_texts_differ("Civic Center"@, "Antioch"@, 0);
    lemma_texts_differ("16th St. Mission"@, "Antioch"@, 0);
    lemma_texts_differ("24th St. Mission"@, "Antioch"@, 0);
    lemma_texts_differ("Glen Park"@, "Antioch"@, 0);
    lemma_texts_differ("Balboa Park"@, "Antioch"@, 0);
    lemma_texts_differ("Embarcadero"@, "Lake Merritt (Oakland)"@, 0);
    lemma_texts_differ("Montgomery St."@, "Lake Merritt (Oakland)"@, 0);
    lemma_texts_differ("Powell St."@, "Lake Merritt (Oakland)"@, 0);
    lemma_texts_differ("Civic Center"@, "Lake Merritt (Oakland)"@, 0);
    lemma_texts_differ("16th St. Mission"@, "Lake Merritt (Oakland)"@, 0);
    lemma_texts_differ("24th St. Mission"@, "Lake Merritt (Oakland)"@, 0);
    lemma_texts_differ("Glen Park"@, "Lake Merritt (Oakland)"@, 0);
    lemma_texts_differ("Balboa Park"@, "Lake Merritt (Oakland)"@, 0);
    lemma_texts_differ("Embarcadero"@, "Fruitvale (Oakland)"@, 0);
    lemma_texts_differ("Montgomery St."@, "Fruitvale (Oakland)"@, 0);
    lemma_texts_differ("Powell St."@, "Fruitvale (Oakland)"@, 0);
    lemma_texts_differ("Civic Center"@, "Fruitvale (Oakland)"@, 0);
    lemma_texts_differ("16th St. Mission"@, "Fruitvale (Oakland)"@, 0);
    lemma_texts_differ("24th St. Mission"@, "Fruitvale (Oakland)"@, 0);
    lemma_texts_differ("Glen Park"@, "Fruitvale (Oakland)"@, 0);
    lemma_texts_differ("Balboa Park"@, "Fruitvale (Oakland)"@, 0);
    lemma_texts_differ("Embarcadero"@, "Coliseum"@, 0);
    lemma_texts_differ("Montgomery St."@, "Coliseum"@, 0);
    lemma_texts_differ("Powell St."@, "Coliseum"@, 0);
    lemma_texts_differ("Civic Center"@, "Coliseum"@, 0);
    lemma_texts_differ("16th St. Mission"@, "Coliseum"@, 0);
    lemma_texts_differ("24th St. Mission"@, "Coliseum"@, 0);
    lemma_texts_differ("Glen Park"@, "Coliseum"@, 0);
    lemma_texts_differ("Balboa Park"@, "Coliseum"@, 0);
    lemma_texts_differ("Embarcadero"@, "San Leandro"@, 0);
    lemma_texts_differ("Montgomery St."@, "San Leandro"@, 0);
    lemma_texts_differ("Powell St."@, "San Leandro"@, 0);
    lemma_texts_differ("Civic Center"@, "San Leandro"@, 0);
    lemma_texts_differ("16th St. Mission"@, "San Leandro"@, 0);
    lemma_texts_differ("24th St. Mission"@, "San Leandro"@, 0);
    lemma_texts_differ("Glen Park"@, "San Leandro"@, 0);
    lemma_texts_differ("Balboa Park"@, "San Leandro"@, 0);
    lemma_texts_differ("Embarcadero"@, "Bay Fair (San Leandro)"@, 0);
    lemma_texts_differ("Montgomery St."@, "Bay Fair (San Leandro)"@, 0);
    lemma_texts_differ("Powell St."@, "Bay Fair (San Leandro)"@, 0);
    lemma_texts_differ("Civic Center"@, "Bay Fair (San Leandro)"@, 0);
    lemma_texts_differ("16th St. Mission"@, "Bay Fair (San Leandro)"@, 0);
    lemma_texts_differ("24th St. Mission"@, "Bay Fair (San Leandro)"@, 0);
    lemma_texts_differ("Glen Park"@, "Bay Fair (San Leandro)"@, 0);
    lemma_texts_differ("Balboa Park"@, "Bay Fair (San Leandro)"@, 0);
    lemma_texts_differ("Embarcadero"@, "Hayward"@, 0);
    lemma_texts_differ("Montgomery St."@, "Hayward"@, 0);
    lemma_texts_differ("Powell St."@, "Hayward"@, 0);
    lemma_texts_differ("Civic Center"@, "Hayward"@, 0);
    lemma_texts_differ("16th St. Mission"@, "Hayward"@, 0);
    lemma_texts_differ("24th St. Mission"@, "Hayward"@, 0);
    lemma_texts_differ("Glen Park"@, "Hayward"@, 0);
    lemma_texts_differ("Balboa Park"@, "Hayward"@, 0);
    lemma_texts_differ("Embarcadero"@, "South Hayward"@, 0);
    lemma_texts_differ("Montgomery St."@, "South Hayward"@, 0);
    lemma_texts_differ("Powell St."@, "South Hayward"@, 0);
    lemma_texts_differ("Civic Center"@, "South Hayward"@, 0);
    lemma_texts_differ("16th St. Mission"@, "South Hayward"@, 0);
    lemma_texts_differ("24th St. Mission"@, "South Hayward"@, 0);
    lemma_texts_differ("Glen Park"@, "South Hayward"@, 0);
    lemma_texts_differ("Balboa Park"@, "South Hayward"@, 0);
    lemma_texts_differ("Embarcadero"@, "Union City"@, 0);
    lemma_texts_differ("Montgomery St."@, "Union City"@, 0);
    lemma_texts_differ("Powell St."@, "Union City"@, 0);
    lemma_texts_differ("Civic Center"@, "Union City"@, 0);
    lemma_texts_differ("16th St. Mission"@, "Union City"@, 0);
    lemma_texts_differ("24th St. Mission"@, "Union City"@, 0);
    lemma_texts_differ("Glen Park"@, "Union City"@, 0);
    lemma_texts_differ("Balboa Park"@, "Union City"@, 0);
    lemma_texts_differ("Embarcadero"@, "Fremont"@, 0);
    lemma_texts_differ("Montgomery St."@, "Fremont"@, 0);
    lemma_texts_differ("Powell St."@, "Fremont"@, 0);
    lemma_texts_differ("Civic Center"@, "Fremont"@, 0);
    lemma_texts_differ("16th St. Mission"@, "Fremont"@, 0);
    lemma_texts_differ("24th St. Mission"@, "Fremont"@, 0);
    lemma_texts_differ("Glen Park"@, "Fremont"@, 0);
    lemma_texts_differ("Balboa Park"@, "Fremont"@, 0);
    lemma_texts_differ("Embarcadero"@, "Warm Springs/South Fremont"@, 0);
    lemma_texts_differ("Montgomery St."@, "Warm Springs/South Fremont"@, 0);
    lemma_texts_differ("Powell St."@, "Warm Springs/South Fremont"@, 0);
    lemma_texts_differ("Civic Center"@, "Warm Springs/South Fremont"@, 0);
    lemma_texts_differ("16th St. Mission"@, "Warm Springs/South Fremont"@, 0);
    lemma_texts_differ("24th St. Mission"@, "Warm Springs/South Fremont"@, 0);
    lemma_texts_differ("Glen Park"@, "Warm Springs/South Fremont"@, 0);
    lemma_texts_differ("Balboa Park"@, "Warm Springs/South Fremont"@, 0);
    lemma_texts_differ("Embarcadero"@, "Milpitas"@, 0);
    lemma_texts_differ("Montgomery St."@, "Milpitas"@, 0);
    lemma_texts_differ("Powell St."@, "Milpitas"@, 0);
    lemma_texts_differ("Civic Center"@, "Milpitas"@, 0);
    lemma_texts_differ("16th St. Mission"@, "Milpitas"@, 0);
    lemma_texts_differ("24th St. Mission"@, "Milpitas"@, 0);
    lemma_texts_differ("Glen Park"@, "Milpitas"@, 0);
    lemma_texts_differ("Balboa Park"@, "Milpitas"@, 0);
    lemma_texts_differ("Embarcadero"@, "Berryessa / North San Jose"@, 0);
    lemma_texts_differ("Montgomery St."@, "Berryessa / North San Jose"@, 0);
    lemma_texts_differ("Powell St."@, "Berryessa / North San Jose"@, 0);
    lemma_texts_differ("Civic Center"@, "Berryessa / North San Jose"@, 0);
    lemma_texts_differ("16th St. Mission"@, "Berryessa / North San Jose"@, 0);
    lemma_texts_differ("24th St. Mission"@, "Berryessa / North San Jose"@, 0);
    lemma_texts_differ("Glen Park"@, "Berryessa / North San Jose"@, 0);
    lemma_texts_differ("Balboa Park"@, "Berryessa / North San Jose"@, 0);
    lemma_texts_differ("Embarcadero"@, "Castro Valley"@, 0);
    lemma_texts_differ("Montgomery St."@, "Castro Valley"@, 0);
    lemma_texts_differ("Powell St."@, "Castro Valley"@, 0);
    lemma_texts_differ("Civic Center"@, "Castro Valley"@, 0);
    lemma_texts_differ("16th St. Mission"@, "Castro Valley"@, 0);
    lemma_texts_differ("24th St. Mission"@, "Castro Valley"@, 0);
    lemma_texts_differ("Glen Park"@, "Castro Valley"@, 0);
    lemma_texts_differ("Balboa Park"@, "Castro Valley"@, 0);
    lemma_texts_differ("Embarcadero"@, "West Dublin"@, 0);
    lemma_texts_differ("Montgomery St."@, "West Dublin"@, 0);
    lemma_texts_differ("Powell St."@, "West Dublin"@, 0);
    lemma_texts_differ("Civic Center"@, "West Dublin"@, 0);
    lemma_texts_differ("16th St. Mission"@, "West Dublin"@, 0);
    lemma_texts_differ("24th St. Mission"@, "West Dublin"@, 0);
    lemma_texts_differ("Glen Park"@, "West Dublin"@, 0);
    lemma_texts_differ("Balboa Park"@, "West Dublin"@, 0);
    lemma_texts_differ("Embarcadero"@, "Dublin/Pleasanton"@, 0);
    lemma_texts_differ("Montgomery St."@, "Dublin/Pleasanton"@, 0);
    lemma_texts_differ("Powell St."@, "Dublin/Pleasanton"@, 0);
    lemma_texts_differ("Civic Center"@, "Dublin/Pleasanton"@, 0);
    lemma_texts_differ("16th St. Mission"@, "Dublin/Pleasanton"@, 0);
    lemma_texts_differ("24th St. Mission"@, "Dublin/Pleasanton"@, 0);
    lemma_texts_differ("Glen Park"@, "Dublin/Pleasanton"@, 0);
    lemma_texts_differ("Balboa Park"@, "Dublin/Pleasanton"@, 0);
    lemma_texts_differ("Embarcadero"@, "Oakland Int'l Airport"@, 0);
    lemma_texts_differ("Montgomery St."@, "Oakland Int'l Airport"@, 0);
    lemma_texts_differ("Powell St."@, "Oakland Int'l Airport"@, 0);
    lemma_texts_differ("Civic Center"@, "Oakland Int'l Airport"@, 0);
    lemma_texts_differ("16th St. Mission"@, "Oakland Int'l Airport"@, 0);
    lemma_texts_differ("24th St. Mission"@, "Oakland Int'l Airport"@, 0);
    lemma_texts_differ("Glen Park"@, "Oakland Int'l Airport"@, 0);
    lemma_texts_differ("Balboa Park"@, "Oakland Int'l Airport"@, 0);
    assert(name_of(STATIONS@[0]) == "Embarcadero (SF)"@);
    assert(name_of(STATIONS@[1]) == "Montgomery St. (SF)"@);
    assert(name_of(STATIONS@[2]) == "Powell St. (SF)"@);
    assert(name_of(STATIONS@[3]) == "Civic Center (SF)"@);
    assert(name_of(STATIONS@[4]) == "24th St. Mission (SF)"@);
    assert(name_of(STATIONS@[5]) == "16th St. Mission (SF)"@);
    assert(name_of(STATIONS@[6]) == "Glen Park (SF)"@);
    assert(name_of(STATIONS@[7]) == "Balboa Park (SF)"@);
    assert(name_of(STATIONS@[8]) == "MacArthur (Oakland)"@);
    assert(name_of(STATIONS@[9]) == "19th St. Oakland"@);
    assert(name_of(STATIONS@[10]) == "12th St. Oakland City Center"@);
    assert(name_of(STATIONS@[11]) == "West Oakland"@);
    assert(name_of(STATIONS@[12]) == "Embarcadero (SF)"@);
    assert(name_of(STATIONS@[13]) == "Montgomery St. (SF)"@);
    assert(name_of(STATIONS@[14]) == "Powell St. (SF)"@);
    assert(name_of(STATIONS@[15]) == "Civic Center (SF)"@);
    assert(name_of(STATIONS@[16]) == "16th St. Mission (SF)"@);
    assert(name_of(STATIONS@[17]) == "24th St. Mission (SF)"@);
    assert(name_of(STATIONS@[18]) == "Glen Park (SF)"@);
    assert(name_of(STATIONS@[19]) == "Balboa Park (SF)"@);
    assert(name_of(STATIONS@[20]) == "Daly City"@);
    assert(name_of(STATIONS@[21]) == "Embarcadero (SF)"@);
    assert(name_of(STATIONS@[22]) == "Montgomery St. (SF)"@);
    assert(name_of(STATIONS@[23]) == "Powell St. (SF)"@);
    assert(name_of(STATIONS@[24]) == "Civic Center (SF)"@);
    assert(name_of(STATIONS@[25]) == "16th St. Mission (SF)"@);
    assert(name_of(STATIONS@[26]) == "24th St. Mission (SF)"@);
    assert(name_of(STATIONS@[27]) == "Glen Park (SF)"@);
    assert(name_of(STATIONS@[28]) == "Balboa Park (SF)"@);
    assert(name_of(STATIONS@[29]) == "Daly City"@);
    assert(name_of(STATIONS@[30]) == "Colma"@);
    assert(name_of(STATIONS@[31]) == "South San Francisco"@);
    assert(name_of(STATIONS@[32]) == "San Bruno"@);
    assert(name_of(STATIONS@[33]) == "San Francisco Int'l Airport"@);
    assert(name_of(STATIONS@[34]) == "Millbrae"@);
    assert(name_of(STATIONS@[35]) == "West Oakland"@);
    assert(name_of(STATIONS@[36]) == "12th St. Oakland City Center"@);
    assert(name_of(STATIONS@[37]) == "19th St. Oakland"@);
    assert(name_of(STATIONS@[38]) == "MacArthur (Oakland)"@);
    assert(name_of(STATIONS@[39]) == "Ashby (Berkeley)"@);
    assert(name_of(STATIONS@[40]) == "Downtown Berkeley"@);
    assert(name_of(STATIONS@[41]) == "North Berkeley"@);
    assert(name_of(STATIONS@[42]) == "El Cerrito Plaza"@);
    assert(name_of(STATIONS@[43]) == "El Cerrito del Norte"@);
    assert(name_of(STATIONS@[44]) == "Richmond"@);
    assert(name_of(STATIONS@[45]) == "Rockridge (Oakland)"@);
    assert(name_of(STATIONS@[46]) == "Orinda"@);
    assert(name_of(STATIONS@[47]) == "Lafayette"@);
    assert(name_of(STATIONS@[48]) == "Walnut Creek"@);
    assert(name_of(STATIONS@[49]) == "Pleasant Hill"@);
    assert(name_of(STATIONS@[50]) == "Concord"@);
    assert(name_of(STATIONS@[51]) == "North Concord/Martinez"@);
    assert(name_of(STATIONS@[52]) == "Pittsburg/Bay Point"@);
    assert(name_of(STATIONS@[53]) == "Pittsburg Center"@);
    assert(name_of(STATIONS@[54]) == "Antioch"@);
    assert(name_of(STATIONS@[55]) == "Lake Merritt (Oakland)"@);
    assert(name_of(STATIONS@[56]) == "Fruitvale (Oakland)"@);
    assert(name_of(STATIONS@[57]) == "Coliseum"@);
    assert(name_of(STATIONS@[58]) == "San Leandro"@);
    assert(name_of(STATIONS@[59]) == "Bay Fair (San Leandro)"@);
    assert(name_of(STATIONS@[60]) == "Hayward"@);
    assert(name_of(STATIONS@[61]) == "South Hayward"@);
    assert(name_of(STATIONS@[62]) == "Union City"@);
    assert(name_of(STATIONS@[63]) == "Fremont"@);
    assert(name_of(STATIONS@[64]) == "Warm Springs/South Fremont"@);
    assert(name_of(STATIONS@[65]) == "Milpitas"@);
    assert(name_of(STATIONS@[66]) == "Berryessa / North San Jose"@);
    assert(name_of(STATIONS@[67]) == "Castro Valley"@);
    assert(name_of(STATIONS@[68]) == "West Dublin"@);
    assert(name_of(STATIONS@[69]) == "Dublin/Pleasanton"@);
    assert(name_of(STATIONS@[70]) == "Oakland Int'l Airport"@);
}

/// The alternate list carries every display name of the canonical list.
pub proof fn lemma_alternate_covers_stations()
    ensures
        covers(ALTERNATE_STATIONS@, STATIONS@),
{
    assert(name_of(ALTERNATE_STATIONS@[0]) == name_of(STATIONS@[0]));
    assert(has_name(ALTERNATE_STATIONS@, name_of(STATIONS@[0])));
    assert(name_of(ALTERNATE_STATIONS@[1]) == name_of(STATIONS@[1]));
    assert(has_name(ALTERNATE_STATIONS@, name_of(STATIONS@[1])));
    assert(name_of(ALTERNATE_STATIONS@[2]) == name_of(STATIONS@[2]));
    assert(has_name(ALTERNATE_STATIONS@, name_of(STATIONS@[2])));
    assert(name_of(ALTERNATE_STATIONS@[3]) == name_of(STATIONS@[3]));
    assert(has_name(ALTERNATE_STATIONS@, name_of(STATIONS@[3])));
    assert(name_of(ALTERNATE_STATIONS@[4]) == name_of(STATIONS@[4]));
    assert(has_name(ALTERNATE_STATIONS@, name_of(STATIONS@[4])));
    assert(name_of(ALTERNATE_STATIONS@[5]) == name_of(STATIONS@[5]));
    assert(has_name(ALTERNATE_STATIONS@, name_of(STATIONS@[5])));
    assert(name_of(ALTERNATE_STATIONS@[6]) == name_of(STATIONS@[6]));
    assert(has_name(ALTERNATE_STATIONS@, name_of(STATIONS@[6])));
    assert(name_of(ALTERNATE_STATIONS@[7]) == name_of(STATIONS@[7]));
    assert(has_name(ALTERNATE_STATIONS@, name_of(STATIONS@[7])));
    assert(name_of(ALTERNATE_STATIONS@[8]) == name_of(STATIONS@[8]));
    assert(has_name(ALTERNATE_STATIONS@, name_of(STATIONS@[8])));
    assert(name_of(ALTERNATE_STATIONS@[9]) == name_of(STATIONS@[9]));
    assert(has_name(ALTERNATE_STATIONS@, name_of(STATIONS@[9])));
    assert(name_of(ALTERNATE_STATIONS@[10]) == name_of(STATIONS@[10]));
    assert(has_name(ALTERNATE_STATIONS@, name_of(STATIONS@[10])));
    assert(name_of(ALTERNATE_STATIONS@[11]) == name_of(STATIONS@[11]));
    assert(has_name(ALTERNATE_STATIONS@, name_of(STATIONS@[11])));
    assert(name_of(ALTERNATE_STATIONS@[0]) == name_of(STATIONS@[12]));
    assert(has_name(ALTERNATE_STATIONS@, name_of(STATIONS@[12])));
    assert(name_of(ALTERNATE_STATIONS@[1]) == name_of(STATIONS@[13]));
    assert(has_name(ALTERNATE_STATIONS@, name_of(STATIONS@[13])));
    assert(name_of(ALTERNATE_STATIONS@[2]) == name_of(STATIONS@[14]));
    assert(has_name(ALTERNATE_STATIONS@, name_of(STATIONS@[14])));
    assert(name_of(ALTERNATE_STATIONS@[3]) == name_of(STATIONS@[15]));
    assert(has_name(ALTERNATE_STATIONS@, name_of(STATIONS@[15])));
    assert(name_of(ALTERNATE_STATIONS@[5]) == name_of(STATIONS@[16]));
    assert(has_name(ALTERNATE_STATIONS@, name_of(STATIONS@[16])));
    assert(name_of(ALTERNATE_STATIONS@[4]) == name_of(STATIONS@[17]));
    assert(has_name(ALTERNATE_STATIONS@, name_of(STATIONS@[17])));
    assert(name_of(ALTERNATE_STATIONS@[6]) == name_of(STATIONS@[18]));
    assert(has_name(ALTERNATE_STATIONS@, name_of(STATIONS@[18])));
    assert(name_of(ALTERNATE_STATIONS@[7]) == name_of(STATIONS@[19]));
    assert(has_name(ALTERNATE_STATIONS@, name_of(STATIONS@[19])));
    assert(name_of(ALTERNATE_STATIONS@[20]) == name_of(STATIONS@[20]));
    assert(has_name(ALTERNATE_STATIONS@, name_of(STATIONS@[20])));
    assert(name_of(ALTERNATE_STATIONS@[0]) == name_of(STATIONS@[21]));
    assert(has_name(ALTERNATE_STATIONS@, name_of(STATIONS@[21])));
    assert(name_of(ALTERNATE_STATIONS@[1]) == name_of(STATIONS@[22]));
    assert(has_name(ALTERNATE_STATIONS@, name_of(STATIONS@[22])));
    assert(name_of(ALTERNATE_STATIONS@[2]) == name_of(STATIONS@[23]));
    assert(has_name(ALTERNATE_STATIONS@, name_of(STATIONS@[23])));
    assert(name_of(ALTERNATE_STATIONS@[3]) == name_of(STATIONS@[24]));
    assert(has_name(ALTERNATE_STATIONS@, name_of(STATIONS@[24])));
    assert(name_of(ALTERNATE_STATIONS@[5]) == name_of(STATIONS@[25]));
    assert(has_name(ALTERNATE_STATIONS@, name_of(STATIONS@[25])));
    assert(name_of(ALTERNATE_STATIONS@[4]) == name_of(STATIONS@[26]));
    assert(has_name(ALTERNATE_STATIONS@, name_of(STATIONS@[26])));
    assert(name_of(ALTERNATE_STATIONS@[6]) == name_of(STATIONS@[27]));
    assert(has_name(ALTERNATE_STATIONS@, name_of(STATIONS@[27])));
    assert(name_of(ALTERNATE_STATIONS@[7]) == name_of(STATIONS@[28]));
    assert(has_name(ALTERNATE_STATIONS@, name_of(STATIONS@[28])));
    assert(name_of(ALTERNATE_STATIONS@[20]) == name_of(STATIONS@[29]));
    assert(has_name(ALTERNATE_STATIONS@, name_of(STATIONS@[29])));
    assert(name_of(ALTERNATE_STATIONS@[21]) == name_of(STATIONS@[30]));
    assert(has_name(ALTERNATE_STATIONS@, name_of(STATIONS@[30])));
    assert(name_of(ALTERNATE_STATIONS@[22]) == name_of(STATIONS@[31]));
    assert(has_name(ALTERNATE_STATIONS@, name_of(STATIONS@[31])));
    assert(name_of(ALTERNATE_STATIONS@[23]) == name_of(STATIONS@[32]));
    assert(has_name(ALTERNATE_STATIONS@, name_of(STATIONS@[32])));
    assert(name_of(ALTERNATE_STATIONS@[24]) == name_of(STATIONS@[33]));
    assert(has_name(ALTERNATE_STATIONS@, name_of(STATIONS@[33])));
    assert(name_of(ALTERNATE_STATIONS@[25]) == name_of(STATIONS@[34]));
    assert(has_name(ALTERNATE_STATIONS@, name_of(STATIONS@[34])));
    assert(name_of(ALTERNATE_STATIONS@[11]) == name_of(STATIONS@[35]));
    assert(has_name(ALTERNATE_STATIONS@, name_of(STATIONS@[35])));
    assert(name_of(ALTERNATE_STATIONS@[10]) == name_of(STATIONS@[36]));
    assert(has_name(ALTERNATE_STATIONS@, name_of(STATIONS@[36])));
    assert(name_of(ALTERNATE_STATIONS@[9]) == name_of(STATIONS@[37]));
    assert(has_name(ALTERNATE_STATIONS@, name_of(STATIONS@[37])));
    assert(name_of(ALTERNATE_STATIONS@[8]) == name_of(STATIONS@[38]));
    assert(has_name(ALTERNATE_STATIONS@, name_of(STATIONS@[38])));
    assert(name_of(ALTERNATE_STATIONS@[26]) == name_of(STATIONS@[39]));
    assert(has_name(ALTERNATE_STATIONS@, name_of(STATIONS@[39])));
    assert(name_of(ALTERNATE_STATIONS@[27]) == name_of(STATIONS@[40]));
    assert(has_name(ALTERNATE_STATIONS@, name_of(STATIONS@[40])));
    assert(name_of(ALTERNATE_STATIONS@[28]) == name_of(STATIONS@[41]));
    assert(has_name(ALTERNATE_STATIONS@, name_of(STATIONS@[41])));
    assert(name_of(ALTERNATE_STATIONS@[29]) == name_of(STATIONS@[42]));
    assert(has_name(ALTERNATE_STATIONS@, name_of(STATIONS@[42])));
    assert(name_of(ALTERNATE_STATIONS@[30]) == name_of(STATIONS@[43]));
    assert(has_name(ALTERNATE_STATIONS@, name_of(STATIONS@[43])));
    assert(name_of(ALTERNATE_STATIONS@[31]) == name_of(STATIONS@[44]));
    assert(has_name(ALTERNATE_STATIONS@, name_of(STATIONS@[44])));
    assert(name_of(ALTERNATE_STATIONS@[32]) == name_of(STATIONS@[45]));
    assert(has_name(ALTERNATE_STATIONS@, name_of(STATIONS@[45])));
    assert(name_of(ALTERNATE_STATIONS@[33]) == name_of(STATIONS@[46]));
    assert(has_name(ALTERNATE_STATIONS@, name_of(STATIONS@[46])));
    assert(name_of(ALTERNATE_STATIONS@[34]) == name_of(STATIONS@[47]));
    assert(has_name(ALTERNATE_STATIONS@, name_of(STATIONS@[47])));
    assert(name_of(ALTERNATE_STATIONS@[35]) == name_of(STATIONS@[48]));
    assert(has_name(ALTERNATE_STATIONS@, name_of(STATIONS@[48])));
    assert(name_of(ALTERNATE_STATIONS@[36]) == name_of(STATIONS@[49]));
    assert(has_name(ALTERNATE_STATIONS@, name_of(STATIONS@[49])));
    assert(name_of(ALTERNATE_STATIONS@[37]) == name_of(STATIONS@[50]));
    assert(has_name(ALTERNATE_STATIONS@, name_of(STATIONS@[50])));
    assert(name_of(ALTERNATE_STATIONS@[38]) == name_of(STATIONS@[51]));
    assert(has_name(ALTERNATE_STATIONS@, name_of(STATIONS@[51])));
    assert(name_of(ALTERNATE_STATIONS@[39]) == name_of(STATIONS@[52]));
    assert(has_name(ALTERNATE_STATIONS@, name_of(STATIONS@[52])));
    assert(name_of(ALTERNATE_STATIONS@[40]) == name_of(STATIONS@[53]));
    assert(has_name(ALTERNATE_STATIONS@, name_of(STATIONS@[53])));
    assert(name_of(ALTERNATE_STATIONS@[41]) == name_of(STATIONS@[54]));
    assert(has_name(ALTERNATE_STATIONS@, name_of(STATIONS@[54])));
    assert(name_of(ALTERNATE_STATIONS@[42]) == name_of(STATIONS@[55]));
    assert(has_name(ALTERNATE_STATIONS@, name_of(STATIONS@[55])));
    assert(name_of(ALTERNATE_STATIONS@[43]) == name_of(STATIONS@[56]));
    assert(has_name(ALTERNATE_STATIONS@, name_of(STATIONS@[56])));
    assert(name_of(ALTERNATE_STATIONS@[44]) == name_of(STATIONS@[57]));
    assert(has_name(ALTERNATE_STATIONS@, name_of(STATIONS@[57])));
    assert(name_of(ALTERNATE_STATIONS@[45]) == name_of(STATIONS@[58]));
    assert(has_name(ALTERNATE_STATIONS@, name_of(STATIONS@[58])));
    assert(name_of(ALTERNATE_STATIONS@[46]) == name_of(STATIONS@[59]));
    assert(has_name(ALTERNATE_STATIONS@, name_of(STATIONS@[59])));
    assert(name_of(ALTERNATE_STATIONS@[47]) == name_of(STATIONS@[60]));
    assert(has_name(ALTERNATE_STATIONS@, name_of(STATIONS@[60])));
    assert(name_of(ALTERNATE_STATIONS@[48]) == name_of(STATIONS@[61]));
    assert(has_name(ALTERNATE_STATIONS@, name_of(STATIONS@[61])));
    assert(name_of(ALTERNATE_STATIONS@[49]) == name_of(STATIONS@[62]));
    assert(has_name(ALTERNATE_STATIONS@, name_of(STATIONS@[62])));
    assert(name_of(ALTERNATE_STATIONS@[50]) == name_of(STATIONS@[63]));
    assert(has_name(ALTERNATE_STATIONS@, name_of(STATIONS@[63])));
    assert(name_of(ALTERNATE_STATIONS@[51]) == name_of(STATIONS@[64]));
    assert(has_name(ALTERNATE_STATIONS@, name_of(STATIONS@[64])));
    assert(name_of(ALTERNATE_STATIONS@[52]) == name_of(STATIONS@[65]));
    assert(has_name(ALTERNATE_STATIONS@, name_of(STATIONS@[65])));
    assert(name_of(ALTERNATE_STATIONS@[53]) == name_of(STATIONS@[66]));
    assert(has_name(ALTERNATE_STATIONS@, name_of(STATIONS@[66])));
    assert(name_of(ALTERNATE_STATIONS@[54]) == name_of(STATIONS@[67]));
    assert(has_name(ALTERNATE_STATIONS@, name_of(STATIONS@[67])));
    assert(name_of(ALTERNATE_STATIONS@[55]) == name_of(STATIONS@[68]));
    assert(has_name(ALTERNATE_STATIONS@, name_of(STATIONS@[68])));
    assert(name_of(ALTERNATE_STATIONS@[56]) == name_of(STATIONS@[69]));
    assert(has_name(ALTERNATE_STATIONS@, name_of(STATIONS@[69])));
    assert(name_of(ALTERNATE_STATIONS@[57]) == name_of(STATIONS@[70]));
    assert(has_name(ALTERNATE_STATIONS@, name_of(STATIONS@[70])));
}

/// Where the alternate list carries a display name of the canonical list, it
/// carries it with a code to which the canonical list gives the same name.
pub proof fn lemma_alternate_agrees_with_stations()
    ensures
        agrees_with(ALTERNATE_STATIONS@, STATIONS@),
{
    assert(code_of(STATIONS@[0]) == code_of(ALTERNATE_STATIONS@[0]) && name_of(STATIONS@[0])
        == name_of(ALTERNATE_STATIONS@[0]));
    assert(stands_in(STATIONS@, ALTERNATE_STATIONS@[0]));
    assert(code_of(STATIONS@[1]) == code_of(ALTERNATE_STATIONS@[1]) && name_of(STATIONS@[1])
        == name_of(ALTERNATE_STATIONS@[1]));
    assert(stands_in(STATIONS@, ALTERNATE_STATIONS@[1]));
    assert(code_of(STATIONS@[2]) == code_of(ALTERNATE_STATIONS@[2]) && name_of(STATIONS@[2])
        == name_of(ALTERNATE_STATIONS@[2]));
    assert(stands_in(STATIONS@, ALTERNATE_STATIONS@[2]));
    assert(code_of(STATIONS@[3]) == code_of(ALTERNATE_STATIONS@[3]) && name_of(STATIONS@[3])
        == name_of(ALTERNATE_STATIONS@[3]));
    assert(stands_in(STATIONS@, ALTERNATE_STATIONS@[3]));
    assert(code_of(STATIONS@[4]) == code_of(ALTERNATE_STATIONS@[4]) && name_of(STATIONS@[4])
        == name_of(ALTERNATE_STATIONS@[4]));
    assert(stands_in(STATIONS@, ALTERNATE_STATIONS@[4]));
    assert(code_of(STATIONS@[5]) == code_of(ALTERNATE_STATIONS@[5]) && name_of(STATIONS@[5])
        == name_of(ALTERNATE_STATIONS@[5]));
    assert(stands_in(STATIONS@, ALTERNATE_STATIONS@[5]));
    assert(code_of(STATIONS@[6]) == code_of(ALTERNATE_STATIONS@[6]) && name_of(STATIONS@[6])
        == name_of(ALTERNATE_STATIONS@[6]));
    assert(stands_in(STATIONS@, ALTERNATE_STATIONS@[6]));
    assert(code_of(STATIONS@[7]) == code_of(ALTERNATE_STATIONS@[7]) && name_of(STATIONS@[7])
        == name_of(ALTERNATE_STATIONS@[7]));
    assert(stands_in(STATIONS@, ALTERNATE_STATIONS@[7]));
    assert(code_of(STATIONS@[8]) == code_of(ALTERNATE_STATIONS@[8]) && name_of(STATIONS@[8])
        == name_of(ALTERNATE_STATIONS@[8]));
    assert(stands_in(STATIONS@, ALTERNATE_STATIONS@[8]));
    assert(code_of(STATIONS@[9]) == code_of(ALTERNATE_STATIONS@[9]) && name_of(STATIONS@[9])
        == name_of(ALTERNATE_STATIONS@[9]));
    assert(stands_in(STATIONS@, ALTERNATE_STATIONS@[9]));
    assert(code_of(STATIONS@[10]) == code_of(ALTERNATE_STATIONS@[10]) && name_of(STATIONS@[10])
        == name_of(ALTERNATE_STATIONS@[10]));
    assert(stands_in(STATIONS@, ALTERNATE_STATIONS@[10]));
    assert(code_of(STATIONS@[11]) == code_of(ALTERNATE_STATIONS@[11]) && name_of(STATIONS@[11])
        == name_of(ALTERNATE_STATIONS@[11]));
    assert(stands_in(STATIONS@, ALTERNATE_STATIONS@[11]));
    assert(!has_name(STATIONS@, name_of(ALTERNATE_STATIONS@[12]))) by {
        assert forall|j: int| 0 <= j < STATIONS@.len() implies name_of(#[trigger] STATIONS@[j])
            != name_of(ALTERNATE_STATIONS@[12]) by {
            lemma_short_names_are_new(j);
        }
    }
    assert(!has_name(STATIONS@, name_of(ALTERNATE_STATIONS@[13]))) by {
        assert forall|j: int| 0 <= j < STATIONS@.len() implies name_of(#[trigger] STATIONS@[j])
            != name_of(ALTERNATE_STATIONS@[13]) by {
            lemma_short_names_are_new(j);
        }
    }
    assert(!has_name(STATIONS@, name_of(ALTERNATE_STATIONS@[14]))) by {
        assert forall|j: int| 0 <= j < STATIONS@.len() implies name_of(#[trigger] STATIONS@[j])
            != name_of(ALTERNATE_STATIONS@[14]) by {
            lemma_short_names_are_new(j);
        }
    }
    assert(!has_name(STATIONS@, name_of(ALTERNATE_STATIONS@[15]))) by {
        assert forall|j: int| 0 <= j < STATIONS@.len() implies name_of(#[trigger] STATIONS@[j])
            != name_of(ALTERNATE_STATIONS@[15]) by {
            lemma_short_names_are_new(j);
        }
    }
    assert(!has_name(STATIONS@, name_of(ALTERNATE_STATIONS@[16]))) by {
        assert forall|j: int| 0 <= j < STATIONS@.len() implies name_of(#[trigger] STATIONS@[j])
            != name_of(ALTERNATE_STATIONS@[16]) by {
            lemma_short_names_are_new(j);
        }
    }
    assert(!has_name(STATIONS@, name_of(ALTERNATE_STATIONS@[17]))) by {
        assert forall|j: int| 0 <= j < STATIONS@.len() implies name_of(#[trigger] STATIONS@[j])
            != name_of(ALTERNATE_STATIONS@[17]) by {
            lemma_short_names_are_new(j);
        }
    }
    assert(!has_name(STATIONS@, name_of(ALTERNATE_STATIONS@[18]))) by {
        assert forall|j: int| 0 <= j < STATIONS@.len() implies name_of(#[trigger] STATIONS@[j])
            != name_of(ALTERNATE_STATIONS@[18]) by {
            lemma_short_names_are_new(j);
        }
    }
    assert(!has_name(STATIONS@, name_of(ALTERNATE_STATIONS@[19]))) by {
        assert forall|j: int| 0 <= j < STATIONS@.len() implies name_of(#[trigger] STATIONS@[j])
            != name_of(ALTERNATE_STATIONS@[19]) by {
            lemma_short_names_are_new(j);
        }
    }
    assert(code_of(STATIONS@[20]) == code_of(ALTERNATE_STATIONS@[20]) && name_of(STATIONS@[20])
        == name_of(ALTERNATE_STATIONS@[20]));
    assert(stands_in(STATIONS@, ALTERNATE_STATIONS@[20]));
    assert(code_of(STATIONS@[30]) == code_of(ALTERNATE_STATIONS@[21]) && name_of(STATIONS@[30])
        == name_of(ALTERNATE_STATIONS@[21]));
    assert(stands_in(STATIONS@, ALTERNATE_STATIONS@[21]));
    assert(code_of(STATIONS@[31]) == code_of(ALTERNATE_STATIONS@[22]) && name_of(STATIONS@[31])
        == name_of(ALTERNATE_STATIONS@[22]));
    assert(stands_in(STATIONS@, ALTERNATE_STATIONS@[22]));
    assert(code_of(STATIONS@[32]) == code_of(ALTERNATE_STATIONS@[23]) && name_of(STATIONS@[32])
        == name_of(ALTERNATE_STATIONS@[23]));
    assert(stands_in(STATIONS@, ALTERNATE_STATIONS@[23]));
    assert(code_of(STATIONS@[33]) == code_of(ALTERNATE_STATIONS@[24]) && name_of(STATIONS@[33])
        == name_of(ALTERNATE_STATIONS@[24]));
    assert(stands_in(STATIONS@, ALTERNATE_STATIONS@[24]));
    assert(code_of(STATIONS@[34]) == code_of(ALTERNATE_STATIONS@[25]) && name_of(STATIONS@[34])
        == name_of(ALTERNATE_STATIONS@[25]));
    assert(stands_in(STATIONS@, ALTERNATE_STATIONS@[25]));
    assert(code_of(STATIONS@[39]) == code_of(ALTERNATE_STATIONS@[26]) && name_of(STATIONS@[39])
        == name_of(ALTERNATE_STATIONS@[26]));
    assert(stands_in(STATIONS@, ALTERNATE_STATIONS@[26]));
    assert(code_of(STATIONS@[40]) == code_of(ALTERNATE_STATIONS@[27]) && name_of(STATIONS@[40])
        == name_of(ALTERNATE_STATIONS@[27]));
    assert(stands_in(STATIONS@, ALTERNATE_STATIONS@[27]));
    assert(code_of(STATIONS@[41]) == code_of(ALTERNATE_STATIONS@[28]) && name_of(STATIONS@[41])
        == name_of(ALTERNATE_STATIONS@[28]));
    assert(stands_in(STATIONS@, ALTERNATE_STATIONS@[28]));
    assert(code_of(STATIONS@[42]) == code_of(ALTERNATE_STATIONS@[29]) && name_of(STATIONS@[42])
        == name_of(ALTERNATE_STATIONS@[29]));
    assert(stands_in(STATIONS@, ALTERNATE_STATIONS@[29]));
    assert(code_of(STATIONS@[43]) == code_of(ALTERNATE_STATIONS@[30]) && name_of(STATIONS@[43])
        == name_of(ALTERNATE_STATIONS@[30]));
    assert(stands_in(STATIONS@, ALTERNATE_STATIONS@[30]));
    assert(code_of(STATIONS@[44]) == code_of(ALTERNATE_STATIONS@[31]) && name_of(STATIONS@[44])
        == name_of(ALTERNATE_STATIONS@[31]));
    assert(stands_in(STATIONS@, ALTERNATE_STATIONS@[31]));
    assert(code_of(STATIONS@[45]) == code_of(ALTERNATE_STATIONS@[32]) && name_of(STATIONS@[45])
        == name_of(ALTERNATE_STATIONS@[32]));
    assert(stands_in(STATIONS@, ALTERNATE_STATIONS@[32]));
    assert(code_of(STATIONS@[46]) == code_of(ALTERNATE_STATIONS@[33]) && name_of(STATIONS@[46])
        == name_of(ALTERNATE_STATIONS@[33]));
    assert(stands_in(STATIONS@, ALTERNATE_STATIONS@[33]));
    assert(code_of(STATIONS@[47]) == code_of(ALTERNATE_STATIONS@[34]) && name_of(STATIONS@[47])
        == name_of(ALTERNATE_STATIONS@[34]));
    assert(stands_in(STATIONS@, ALTERNATE_STATIONS@[34]));
    assert(code_of(STATIONS@[48]) == code_of(ALTERNATE_STATIONS@[35]) && name_of(STATIONS@[48])
        == name_of(ALTERNATE_STATIONS@[35]));
    assert(stands_in(STATIONS@, ALTERNATE_STATIONS@[35]));
    assert(code_of(STATIONS@[49]) == code_of(ALTERNATE_STATIONS@[36]) && name_of(STATIONS@[49])
        == name_of(ALTERNATE_STATIONS@[36]));
    assert(stands_in(STATIONS@, ALTERNATE_STATIONS@[36]));
    assert(code_of(STATIONS@[50]) == code_of(ALTERNATE_STATIONS@[37]) && name_of(STATIONS@[50])
        == name_of(ALTERNATE_STATIONS@[37]));
    assert(stands_in(STATIONS@, ALTERNATE_STATIONS@[37]));
    assert(code_of(STATIONS@[51]) == code_of(ALTERNATE_STATIONS@[38]) && name_of(STATIONS@[51])
        == name_of(ALTERNATE_STATIONS@[38]));
    assert(stands_in(STATIONS@, ALTERNATE_STATIONS@[38]));
    assert(code_of(STATIONS@[52]) == code_of(ALTERNATE_STATIONS@[39]) && name_of(STATIONS@[52])
        == name_of(ALTERNATE_STATIONS@[39]));
    assert(stands_in(STATIONS@, ALTERNATE_STATIONS@[39]));
    assert(code_of(STATIONS@[53]) == code_of(ALTERNATE_STATIONS@[40]) && name_of(STATIONS@[53])
        == name_of(ALTERNATE_STATIONS@[40]));
    assert(stands_in(STATIONS@, ALTERNATE_STATIONS@[40]));
    assert(code_of(STATIONS@[54]) == code_of(ALTERNATE_STATIONS@[41]) && name_of(STATIONS@[54])
        == name_of(ALTERNATE_STATIONS@[41]));
    assert(stands_in(STATIONS@, ALTERNATE_STATIONS@[41]));
    assert(code_of(STATIONS@[55]) == code_of(ALTERNATE_STATIONS@[42]) && name_of(STATIONS@[55])
        == name_of(ALTERNATE_STATIONS@[42]));
    assert(stands_in(STATIONS@, ALTERNATE_STATIONS@[42]));
    assert(code_of(STATIONS@[56]) == code_of(ALTERNATE_STATIONS@[43]) && name_of(STATIONS@[56])
        == name_of(ALTERNATE_STATIONS@[43]));
    assert(stands_in(STATIONS@, ALTERNATE_STATIONS@[43]));
    assert(code_of(STATIONS@[57]) == code_of(ALTERNATE_STATIONS@[44]) && name_of(STATIONS@[57])
        == name_of(ALTERNATE_STATIONS@[44]));
    assert(stands_in(STATIONS@, ALTERNATE_STATIONS@[44]));
    assert(code_of(STATIONS@[58]) == code_of(ALTERNATE_STATIONS@[45]) && name_of(STATIONS@[58])
        == name_of(ALTERNATE_STATIONS@[45]));
    assert(stands_in(STATIONS@, ALTERNATE_STATIONS@[45]));
    assert(code_of(STATIONS@[59]) == code_of(ALTERNATE_STATIONS@[46]) && name_of(STATIONS@[59])
        == name_of(ALTERNATE_STATIONS@[46]));
    assert(stands_in(STATIONS@, ALTERNATE_STATIONS@[46]));
    assert(code_of(STATIONS@[60]) == code_of(ALTERNATE_STATIONS@[47]) && name_of(STATIONS@[60])
        == name_of(ALTERNATE_STATIONS@[47]));
    assert(stands_in(STATIONS@, ALTERNATE_STATIONS@[47]));
    assert(code_of(STATIONS@[61]) == code_of(ALTERNATE_STATIONS@[48]) && name_of(STATIONS@[61])
        == name_of(ALTERNATE_STATIONS@[48]));
    assert(stands_in(STATIONS@, ALTERNATE_STATIONS@[48]));
    assert(code_of(STATIONS@[62]) == code_of(ALTERNATE_STATIONS@[49]) && name_of(STATIONS@[62])
        == name_of(ALTERNATE_STATIONS@[49]));
    assert(stands_in(STATIONS@, ALTERNATE_STATIONS@[49]));
    assert(code_of(STATIONS@[63]) == code_of(ALTERNATE_STATIONS@[50]) && name_of(STATIONS@[63])
        == name_of(ALTERNATE_STATIONS@[50]));
    assert(stands_in(STATIONS@, ALTERNATE_STATIONS@[50]));
    assert(code_of(STATIONS@[64]) == code_of(ALTERNATE_STATIONS@[51]) && name_of(STATIONS@[64])
        == name_of(ALTERNATE_STATIONS@[51]));
    assert(stands_in(STATIONS@, ALTERNATE_STATIONS@[51]));
    assert(code_of(STATIONS@[65]) == code_of(ALTERNATE_STATIONS@[52]) && name_of(STATIONS@[65])
        == name_of(ALTERNATE_STATIONS@[52]));
    assert(stands_in(STATIONS@, ALTERNATE_STATIONS@[52]));
    assert(code_of(STATIONS@[66]) == code_of(ALTERNATE_STATIONS@[53]) && name_of(STATIONS@[66])
        == name_of(ALTERNATE_STATIONS@[53]));
    assert(stands_in(STATIONS@, ALTERNATE_STATIONS@[53]));
    assert(code_of(STATIONS@[67]) == code_of(ALTERNATE_STATIONS@[54]) && name_of(STATIONS@[67])
        == name_of(ALTERNATE_STATIONS@[54]));
    assert(stands_in(STATIONS@, ALTERNATE_STATIONS@[54]));
    assert(code_of(STATIONS@[68]) == code_of(ALTERNATE_STATIONS@[55]) && name_of(STATIONS@[68])
        == name_of(ALTERNATE_STATIONS@[55]));
    assert(stands_in(STATIONS@, ALTERNATE_STATIONS@[55]));
    assert(code_of(STATIONS@[69]) == code_of(ALTERNATE_STATIONS@[56]) && name_of(STATIONS@[69])
        == name_of(ALTERNATE_STATIONS@[56]));
    assert(stands_in(STATIONS@, ALTERNATE_STATIONS@[56]));
    assert(code_of(STATIONS@[70]) == code_of(ALTERNATE_STATIONS@[57]) && name_of(STATIONS@[70])
        == name_of(ALTERNATE_STATIONS@[57]));
    assert(stands_in(STATIONS@, ALTERNATE_STATIONS@[57]));
}

} // verus!
