//! The fixed catalog of cube labels.
//!
//! Each physical cube carries a short printed label; this table maps a
//! cube number to that label. Entry 0 is reserved and unused, and the
//! placeholder "0" stands where no label is on record.

use vstd::prelude::*;

verus! {

/// Number of entries in the catalog, the reserved entry 0 included.
pub const CATALOG_LEN: usize = 193;

/// The label of catalog entry `i`; the empty string beyond the table.
pub open spec fn catalog_label(i: int) -> Seq<char> {
    if i == 0 {
        "Individual ID"@
    } else if i == 1 {
        "0"@
    } else if i == 2 {
        "j1c"@
    } else if i == 3 {
        "r81"@
    } else if i == 4 {
        "26E"@
    } else if i == 5 {
        "76t"@
    } else if i == 6 {
        "broken"@
    } else if i == 7 {
        "k5k"@
    } else if i == 8 {
        "h41"@
    } else if i == 9 {
        "0"@
    } else if i == 10 {
        "0"@
    } else if i == 11 {
        "0"@
    } else if i == 12 {
        "Q3A"@
    } else if i == 13 {
        "03a"@
    } else if i == 14 {
        "0"@
    } else if i == 15 {
        "K0m"@
    } else if i == 16 {
        "0"@
    } else if i == 17 {
        "0"@
    } else if i == 18 {
        "p8B"@
    } else if i == 19 {
        "91B"@
    } else if i == 20 {
        "p75"@
    } else if i == 21 {
        "G1E"@
    } else if i == 22 {
        "k2L"@
    } else if i == 23 {
        "b5p"@
    } else if i == 24 {
        "J6C"@
    } else if i == 25 {
        "0"@
    } else if i == 26 {
        "b8T"@
    } else if i == 27 {
        "b6A"@
    } else if i == 28 {
        "01c"@
    } else if i == 29 {
        "0"@
    } else if i == 30 {
        "0"@
    } else if i == 31 {
        "E2N"@
    } else if i == 32 {
        "G7t"@
    } else if i == 33 {
        "L6T"@
    } else if i == 34 {
        "C0E"@
    } else if i == 35 {
        "t79"@
    } else if i == 36 {
        "J6k"@
    } else if i == 37 {
        "d6f"@
    } else if i == 38 {
        "0"@
    } else if i == 39 {
        "M75"@
    } else if i == 40 {
        "310"@
    } else if i == 41 {
        "M5p"@
    } else if i == 42 {
        "A4a"@
    } else if i == 43 {
        "M9J"@
    } else if i == 44 {
        "i01"@
    } else if i == 45 {
        "T5m"@
    } else if i == 46 {
        "j1G"@
    } else if i == 47 {
        "40G"@
    } else if i == 48 {
        "L6n"@
    } else if i == 49 {
        "a3F"@
    } else if i == 50 {
        "J8d"@
    } else if i == 51 {
        "227"@
    } else if i == 52 {
        "k4i"@
    } else if i == 53 {
        "J68"@
    } else if i == 54 {
        "90J"@
    } else if i == 55 {
        "k96"@
    } else if i == 56 {
        "0"@
    } else if i == 57 {
        "0"@
    } else if i == 58 {
        "0"@
    } else if i == 59 {
        "0"@
    } else if i == 60 {
        "0"@
    } else if i == 61 {
        "0"@
    } else if i == 62 {
        "0"@
    } else if i == 63 {
        "0"@
    } else if i == 64 {
        "0"@
    } else if i == 65 {
        "0"@
    } else if i == 66 {
        "0"@
    } else if i == 67 {
        "0"@
    } else if i == 68 {
        "0"@
    } else if i == 69 {
        "0"@
    } else if i == 70 {
        "0"@
    } else if i == 71 {
        "0"@
    } else if i == 72 {
        "0"@
    } else if i == 73 {
        "0"@
    } else if i == 74 {
        "0"@
    } else if i == 75 {
        "0"@
    } else if i == 76 {
        "0"@
    } else if i == 77 {
        "0"@
    } else if i == 78 {
        "0"@
    } else if i == 79 {
        "E7c"@
    } else if i == 80 {
        "P1B"@
    } else if i == 81 {
        "F2B"@
    } else if i == 82 {
        "L1H"@
    } else if i == 83 {
        "D5i"@
    } else if i == 84 {
        "m4Q"@
    } else if i == 85 {
        "m1k"@
    } else if i == 86 {
        "r52"@
    } else if i == 87 {
        "k89"@
    } else if i == 88 {
        "D2K"@
    } else if i == 89 {
        "65r"@
    } else if i == 90 {
        "f3K"@
    } else if i == 91 {
        "13c"@
    } else if i == 92 {
        "e1a"@
    } else if i == 93 {
        "0"@
    } else if i == 94 {
        "e6e"@
    } else if i == 95 {
        "07F"@
    } else if i == 96 {
        "m8k"@
    } else if i == 97 {
        "79H"@
    } else if i == 98 {
        "0"@
    } else if i == 99 {
        "i1M"@
    } else if i == 100 {
        "R3C"@
    } else if i == 101 {
        "D98"@
    } else if i == 102 {
        "m86"@
    } else if i == 103 {
        "a66"@
    } else if i == 104 {
        "0"@
    } else if i == 105 {
        "E8T"@
    } else if i == 106 {
        "J8n"@
    } else if i == 107 {
        "N0b"@
    } else if i == 108 {
        "586"@
    } else if i == 109 {
        "p50"@
    } else if i == 110 {
        "c9k"@
    } else if i == 111 {
        "N0N"@
    } else if i == 112 {
        "0"@
    } else if i == 113 {
        "B1m"@
    } else if i == 114 {
        "h7E"@
    } else if i == 115 {
        "c05"@
    } else if i == 116 {
        "K20"@
    } else if i == 117 {
        "32D"@
    } else if i == 118 {
        "F19"@
    } else if i == 119 {
        "r4d"@
    } else if i == 120 {
        "D2F"@
    } else if i == 121 {
        "D0m"@
    } else if i == 122 {
        "m6B"@
    } else if i == 123 {
        "M0j"@
    } else if i == 124 {
        "Q8G"@
    } else if i == 125 {
        "A1t"@
    } else if i == 126 {
        "p7J"@
    } else if i == 127 {
        "t0H"@
    } else if i == 128 {
        "M5i"@
    } else if i == 129 {
        "j1L"@
    } else if i == 130 {
        "e7i"@
    } else if i == 131 {
        "T1E"@
    } else if i == 132 {
        "85i"@
    } else if i == 133 {
        "71H"@
    } else if i == 134 {
        "20H"@
    } else if i == 135 {
        "T9n"@
    } else if i == 136 {
        "58B"@
    } else if i == 137 {
        "J4R"@
    } else if i == 138 {
        "93N"@
    } else if i == 139 {
        "t0F"@
    } else if i == 140 {
        "M7G"@
    } else if i == 141 {
        "r4P"@
    } else if i == 142 {
        "i1d"@
    } else if i == 143 {
        "a22"@
    } else if i == 144 {
        "M39"@
    } else if i == 145 {
        "C23"@
    } else if i == 146 {
        "816"@
    } else if i == 147 {
        "E0M"@
    } else if i == 148 {
        "T4b"@
    } else if i == 149 {
        "L1L"@
    } else if i == 150 {
        "i5m"@
    } else if i == 151 {
        "P2R"@
    } else if i == 152 {
        "t77"@
    } else if i == 153 {
        "A5E"@
    } else if i == 154 {
        "88e"@
    } else if i == 155 {
        "k1b"@
    } else if i == 156 {
        "m04"@
    } else if i == 157 {
        "41b"@
    } else if i == 158 {
        "B4k"@
    } else if i == 159 {
        "J1M"@
    } else if i == 160 {
        "H4M"@
    } else if i == 161 {
        "C1D"@
    } else if i == 162 {
        "12K"@
    } else if i == 163 {
        "822"@
    } else if i == 164 {
        "E1T"@
    } else if i == 165 {
        "Q4H"@
    } else if i == 166 {
        "k4d"@
    } else if i == 167 {
        "k4J"@
    } else if i == 168 {
        "L70"@
    } else if i == 169 {
        "31f"@
    } else if i == 170 {
        "G1P"@
    } else if i == 171 {
        "34e"@
    } else if i == 172 {
        "939"@
    } else if i == 173 {
        "24F"@
    } else if i == 174 {
        "43r"@
    } else if i == 175 {
        "M81"@
    } else if i == 176 {
        "01E"@
    } else if i == 177 {
        "A0N"@
    } else if i == 178 {
        "65f"@
    } else if i == 179 {
        "Q6p"@
    } else if i == 180 {
        "93R"@
    } else if i == 181 {
        "r0i"@
    } else if i == 182 {
        "A35"@
    } else if i == 183 {
        "P40"@
    } else if i == 184 {
        "G9R"@
    } else if i == 185 {
        "c7C"@
    } else if i == 186 {
        "P17"@
    } else if i == 187 {
        "76f"@
    } else if i == 188 {
        "99p"@
    } else if i == 189 {
        "96E"@
    } else if i == 190 {
        "p3E"@
    } else if i == 191 {
        "h6t"@
    } else if i == 192 {
        "n2L"@
    } else {
        ""@
    }
}

/// The label of catalog entry `i`.
pub fn catalog_entry(i: usize) -> (r: &'static str)
    requires
        i < CATALOG_LEN,
    ensures
        r@ == catalog_label(i as int),
{
    if i == 0 {
        "Individual ID"
    } else if i == 1 {
        "0"
    } else if i == 2 {
        "j1c"
    } else if i == 3 {
        "r81"
    } else if i == 4 {
        "26E"
    } else if i == 5 {
        "76t"
    } else if i == 6 {
        "broken"
    } else if i == 7 {
        "k5k"
    } else if i == 8 {
        "h41"
    } else if i == 9 {
        "0"
    } else if i == 10 {
        "0"
    } else if i == 11 {
        "0"
    } else if i == 12 {
        "Q3A"
    } else if i == 13 {
        "03a"
    } else if i == 14 {
        "0"
    } else if i == 15 {
        "K0m"
    } else if i == 16 {
        "0"
    } else if i == 17 {
        "0"
    } else if i == 18 {
        "p8B"
    } else if i == 19 {
        "91B"
    } else if i == 20 {
        "p75"
    } else if i == 21 {
        "G1E"
    } else if i == 22 {
        "k2L"
    } else if i == 23 {
        "b5p"
    } else if i == 24 {
        "J6C"
    } else if i == 25 {
        "0"
    } else if i == 26 {
        "b8T"
    } else if i == 27 {
        "b6A"
    } else if i == 28 {
        "01c"
    } else if i == 29 {
        "0"
    } else if i == 30 {
        "0"
    } else if i == 31 {
        "E2N"
    } else if i == 32 {
        "G7t"
    } else if i == 33 {
        "L6T"
    } else if i == 34 {
        "C0E"
    } else if i == 35 {
        "t79"
    } else if i == 36 {
        "J6k"
    } else if i == 37 {
        "d6f"
    } else if i == 38 {
        "0"
    } else if i == 39 {
        "M75"
    } else if i == 40 {
        "310"
    } else if i == 41 {
        "M5p"
    } else if i == 42 {
        "A4a"
    } else if i == 43 {
        "M9J"
    } else if i == 44 {
        "i01"
    } else if i == 45 {
        "T5m"
    } else if i == 46 {
        "j1G"
    } else if i == 47 {
        "40G"
    } else if i == 48 {
        "L6n"
    } else if i == 49 {
        "a3F"
    } else if i == 50 {
        "J8d"
    } else if i == 51 {
        "227"
    } else if i == 52 {
        "k4i"
    } else if i == 53 {
        "J68"
    } else if i == 54 {
        "90J"
    } else if i == 55 {
        "k96"
    } else if i == 56 {
        "0"
    } else if i == 57 {
        "0"
    } else if i == 58 {
        "0"
    } else if i == 59 {
        "0"
    } else if i == 60 {
        "0"
    } else if i == 61 {
        "0"
    } else if i == 62 {
        "0"
    } else if i == 63 {
        "0"
    } else if i == 64 {
        "0"
    } else if i == 65 {
        "0"
    } else if i == 66 {
        "0"
    } else if i == 67 {
        "0"
    } else if i == 68 {
        "0"
    } else if i == 69 {
        "0"
    } else if i == 70 {
        "0"
    } else if i == 71 {
        "0"
    } else if i == 72 {
        "0"
    } else if i == 73 {
        "0"
    } else if i == 74 {
        "0"
    } else if i == 75 {
        "0"
    } else if i == 76 {
        "0"
    } else if i == 77 {
        "0"
    } else if i == 78 {
        "0"
    } else if i == 79 {
        "E7c"
    } else if i == 80 {
        "P1B"
    } else if i == 81 {
        "F2B"
    } else if i == 82 {
        "L1H"
    } else if i == 83 {
        "D5i"
    } else if i == 84 {
        "m4Q"
    } else if i == 85 {
        "m1k"
    } else if i == 86 {
        "r52"
    } else if i == 87 {
        "k89"
    } else if i == 88 {
        "D2K"
    } else if i == 89 {
        "65r"
    } else if i == 90 {
        "f3K"
    } else if i == 91 {
        "13c"
    } else if i == 92 {
        "e1a"
    } else if i == 93 {
        "0"
    } else if i == 94 {
        "e6e"
    } else if i == 95 {
        "07F"
    } else if i == 96 {
        "m8k"
    } else if i == 97 {
        "79H"
    } else if i == 98 {
        "0"
    } else if i == 99 {
        "i1M"
    } else if i == 100 {
        "R3C"
    } else if i == 101 {
        "D98"
    } else if i == 102 {
        "m86"
    } else if i == 103 {
        "a66"
    } else if i == 104 {
        "0"
    } else if i == 105 {
        "E8T"
    } else if i == 106 {
        "J8n"
    } else if i == 107 {
        "N0b"
    } else if i == 108 {
        "586"
    } else if i == 109 {
        "p50"
    } else if i == 110 {
        "c9k"
    } else if i == 111 {
        "N0N"
    } else if i == 112 {
        "0"
    } else if i == 113 {
        "B1m"
    } else if i == 114 {
        "h7E"
    } else if i == 115 {
        "c05"
    } else if i == 116 {
        "K20"
    } else if i == 117 {
        "32D"
    } else if i == 118 {
        "F19"
    } else if i == 119 {
        "r4d"
    } else if i == 120 {
        "D2F"
    } else if i == 121 {
        "D0m"
    } else if i == 122 {
        "m6B"
    } else if i == 123 {
        "M0j"
    } else if i == 124 {
        "Q8G"
    } else if i == 125 {
        "A1t"
    } else if i == 126 {
        "p7J"
    } else if i == 127 {
        "t0H"
    } else if i == 128 {
        "M5i"
    } else if i == 129 {
        "j1L"
    } else if i == 130 {
        "e7i"
    } else if i == 131 {
        "T1E"
    } else if i == 132 {
        "85i"
    } else if i == 133 {
        "71H"
    } else if i == 134 {
        "20H"
    } else if i == 135 {
        "T9n"
    } else if i == 136 {
        "58B"
    } else if i == 137 {
        "J4R"
    } else if i == 138 {
        "93N"
    } else if i == 139 {
        "t0F"
    } else if i == 140 {
        "M7G"
    } else if i == 141 {
        "r4P"
    } else if i == 142 {
        "i1d"
    } else if i == 143 {
        "a22"
    } else if i == 144 {
        "M39"
    } else if i == 145 {
        "C23"
    } else if i == 146 {
        "816"
    } else if i == 147 {
        "E0M"
    } else if i == 148 {
        "T4b"
    } else if i == 149 {
        "L1L"
    } else if i == 150 {
        "i5m"
    } else if i == 151 {
        "P2R"
    } else if i == 152 {
        "t77"
    } else if i == 153 {
        "A5E"
    } else if i == 154 {
        "88e"
    } else if i == 155 {
        "k1b"
    } else if i == 156 {
        "m04"
    } else if i == 157 {
        "41b"
    } else if i == 158 {
        "B4k"
    } else if i == 159 {
        "J1M"
    } else if i == 160 {
        "H4M"
    } else if i == 161 {
        "C1D"
    } else if i == 162 {
        "12K"
    } else if i == 163 {
        "822"
    } else if i == 164 {
        "E1T"
    } else if i == 165 {
        "Q4H"
    } else if i == 166 {
        "k4d"
    } else if i == 167 {
        "k4J"
    } else if i == 168 {
        "L70"
    } else if i == 169 {
        "31f"
    } else if i == 170 {
        "G1P"
    } else if i == 171 {
        "34e"
    } else if i == 172 {
        "939"
    } else if i == 173 {
        "24F"
    } else if i == 174 {
        "43r"
    } else if i == 175 {
        "M81"
    } else if i == 176 {
        "01E"
    } else if i == 177 {
        "A0N"
    } else if i == 178 {
        "65f"
    } else if i == 179 {
        "Q6p"
    } else if i == 180 {
        "93R"
    } else if i == 181 {
        "r0i"
    } else if i == 182 {
        "A35"
    } else if i == 183 {
        "P40"
    } else if i == 184 {
        "G9R"
    } else if i == 185 {
        "c7C"
    } else if i == 186 {
        "P17"
    } else if i == 187 {
        "76f"
    } else if i == 188 {
        "99p"
    } else if i == 189 {
        "96E"
    } else if i == 190 {
        "p3E"
    } else if i == 191 {
        "h6t"
    } else if i == 192 {
        "n2L"
    } else {
        ""
    }
}

} // verus!
