//! The line breaking state machine of the Unicode line breaking algorithm (UAX #14).
use vstd::prelude::*;

verus! {

/// The number of line breaking classes (the ICU `ULineBreak` values).
pub const N_LINEBREAK_CATEGORIES: usize = 43;

/// The number of states of the line breaking state machine.
pub const N_LINEBREAK_STATES: usize = 89;

/// The transitions from state 0: XX.
pub const STATE_0: [u8; 43] = [
    0, 1, 2, 131, 4, 133, 6, 135, 8, 0, 10, 11, 12, 13, 142, 15, 16, 17, 18, 19, 20, 21,
    22, 23, 24, 25, 46, 27, 28, 29, 30, 159, 160, 161, 162, 163, 36, 37, 38, 167, 168, 169, 0,
];

/// The transitions from state 1: AI.
pub const STATE_1: [u8; 43] = [
    0, 1, 2, 131, 4, 133, 6, 135, 8, 1, 10, 11, 12, 13, 142, 15, 16, 17, 18, 19, 20, 21,
    22, 23, 24, 25, 47, 27, 28, 29, 30, 159, 160, 161, 162, 163, 36, 37, 38, 167, 168, 169, 1,
];

/// The transitions from state 2: AL.
pub const STATE_2: [u8; 43] = [
    0, 1, 2, 131, 4, 133, 6, 135, 8, 2, 10, 11, 12, 13, 142, 15, 16, 17, 18, 19, 20, 21,
    22, 23, 24, 25, 48, 27, 28, 29, 30, 159, 160, 161, 162, 163, 36, 37, 38, 167, 168, 169, 2,
];

/// The transitions from state 3: B2.
pub const STATE_3: [u8; 43] = [
    128, 129, 130, 3, 4, 133, 6, 135, 8, 3, 10, 11, 12, 13, 142, 143, 16, 17, 18, 147, 148, 149,
    150, 23, 152, 153, 49, 27, 28, 29, 30, 159, 160, 161, 162, 163, 36, 37, 166, 167, 168, 169, 3,
];

/// The transitions from state 4: BA.
pub const STATE_4: [u8; 43] = [
    128, 129, 130, 131, 4, 133, 6, 135, 8, 4, 10, 11, 140, 13, 142, 143, 16, 17, 18, 147, 148, 149,
    150, 23, 152, 153, 50, 27, 28, 29, 30, 159, 160, 161, 162, 163, 36, 37, 166, 167, 168, 169, 4,
];

/// The transitions from state 5: BB.
pub const STATE_5: [u8; 43] = [
    0, 1, 2, 3, 4, 5, 6, 135, 8, 5, 10, 11, 12, 13, 14, 15, 16, 17, 18, 19, 20, 21,
    22, 23, 24, 25, 51, 27, 28, 29, 30, 31, 32, 33, 34, 35, 36, 37, 38, 39, 40, 41, 5,
];

/// The transitions from state 6: BK.
pub const STATE_6: [u8; 43] = [
    192, 193, 194, 195, 196, 197, 198, 199, 200, 194, 202, 203, 204, 205, 206, 207, 208, 209, 210, 211, 212, 213,
    214, 215, 216, 217, 218, 219, 220, 221, 222, 223, 224, 225, 226, 227, 228, 229, 230, 231, 232, 233, 194,
];

/// The transitions from state 7: CB.
pub const STATE_7: [u8; 43] = [
    128, 129, 130, 131, 132, 133, 6, 135, 8, 7, 10, 11, 12, 141, 142, 143, 16, 17, 146, 147, 148, 149,
    150, 23, 152, 153, 53, 27, 28, 29, 30, 159, 160, 161, 162, 163, 36, 165, 166, 167, 168, 169, 7,
];

/// The transitions from state 8: CL.
pub const STATE_8: [u8; 43] = [
    128, 129, 130, 131, 4, 133, 6, 135, 8, 8, 10, 11, 12, 13, 142, 143, 16, 17, 18, 147, 148, 21,
    150, 23, 152, 153, 54, 27, 28, 29, 30, 159, 160, 161, 162, 163, 36, 37, 166, 167, 168, 169, 8,
];

/// The transitions from state 9: CM.
pub const STATE_9: [u8; 43] = [
    0, 1, 2, 131, 4, 133, 6, 135, 8, 9, 10, 11, 12, 13, 142, 15, 16, 17, 18, 19, 20, 21,
    22, 23, 24, 25, 55, 27, 28, 29, 30, 159, 160, 161, 162, 163, 36, 37, 38, 167, 168, 169, 9,
];

/// The transitions from state 10: CR.
pub const STATE_10: [u8; 43] = [
    192, 193, 194, 195, 196, 197, 198, 199, 200, 194, 202, 203, 204, 205, 206, 207, 208, 17, 210, 211, 212, 213,
    214, 215, 216, 217, 218, 219, 220, 221, 222, 223, 224, 225, 226, 227, 228, 229, 230, 231, 232, 233, 194,
];

/// The transitions from state 11: EX.
pub const STATE_11: [u8; 43] = [
    128, 129, 130, 131, 4, 133, 6, 135, 8, 11, 10, 11, 12, 13, 142, 15, 16, 17, 18, 147, 148, 149,
    150, 23, 152, 153, 57, 27, 28, 29, 30, 159, 160, 161, 162, 163, 36, 37, 166, 167, 168, 169, 11,
];

/// The transitions from state 12: GL.
pub const STATE_12: [u8; 43] = [
    0, 1, 2, 3, 4, 5, 6, 7, 8, 12, 10, 11, 12, 13, 14, 15, 16, 17, 18, 19, 20, 21,
    22, 23, 24, 25, 58, 27, 28, 29, 30, 31, 32, 33, 34, 35, 36, 37, 38, 39, 40, 41, 12,
];

/// The transitions from state 13: HY.
pub const STATE_13: [u8; 43] = [
    128, 129, 130, 131, 4, 133, 6, 135, 8, 13, 10, 11, 140, 13, 142, 143, 16, 17, 18, 19, 148, 149,
    150, 23, 152, 153, 59, 27, 28, 29, 30, 159, 160, 161, 162, 163, 36, 37, 166, 167, 168, 169, 13,
];

/// The transitions from state 14: ID.
pub const STATE_14: [u8; 43] = [
    128, 129, 130, 131, 4, 133, 6, 135, 8, 14, 10, 11, 12, 13, 142, 15, 16, 17, 18, 147, 148, 21,
    150, 23, 152, 153, 60, 27, 28, 29, 30, 159, 160, 161, 162, 163, 36, 37, 166, 167, 168, 169, 14,
];

/// The transitions from state 15: IN.
pub const STATE_15: [u8; 43] = [
    128, 129, 130, 131, 4, 133, 6, 135, 8, 15, 10, 11, 12, 13, 142, 15, 16, 17, 18, 147, 148, 149,
    150, 23, 152, 153, 61, 27, 28, 29, 30, 159, 160, 161, 162, 163, 36, 37, 166, 167, 168, 169, 15,
];

/// The transitions from state 16: IS.
pub const STATE_16: [u8; 43] = [
    0, 1, 2, 131, 4, 133, 6, 135, 8, 16, 10, 11, 12, 13, 142, 143, 16, 17, 18, 19, 148, 149,
    150, 23, 24, 25, 62, 27, 28, 29, 30, 159, 160, 161, 162, 163, 36, 37, 38, 167, 168, 169, 16,
];

/// The transitions from state 17: LF.
pub const STATE_17: [u8; 43] = [
    192, 193, 194, 195, 196, 197, 198, 199, 200, 194, 202, 203, 204, 205, 206, 207, 208, 209, 210, 211, 212, 213,
    214, 215, 216, 217, 218, 219, 220, 221, 222, 223, 224, 225, 226, 227, 228, 229, 230, 231, 232, 233, 194,
];

/// The transitions from state 18: NS.
pub const STATE_18: [u8; 43] = [
    128, 129, 130, 131, 4, 133, 6, 135, 8, 18, 10, 11, 12, 13, 142, 143, 16, 17, 18, 147, 148, 149,
    150, 23, 152, 153, 64, 27, 28, 29, 30, 159, 160, 161, 162, 163, 36, 37, 166, 167, 168, 169, 18,
];

/// The transitions from state 19: NU.
pub const STATE_19: [u8; 43] = [
    0, 1, 2, 131, 4, 133, 6, 135, 8, 19, 10, 11, 12, 13, 142, 15, 16, 17, 18, 19, 20, 21,
    22, 23, 24, 25, 65, 27, 28, 29, 30, 159, 160, 161, 162, 163, 36, 37, 38, 167, 168, 169, 19,
];

/// The transitions from state 20: OP.
pub const STATE_20: [u8; 43] = [
    0, 1, 2, 3, 4, 5, 6, 7, 8, 20, 10, 11, 12, 13, 14, 15, 16, 17, 18, 19, 20, 21,
    22, 23, 24, 25, 66, 27, 28, 29, 30, 31, 32, 33, 34, 35, 36, 37, 38, 39, 40, 41, 20,
];

/// The transitions from state 21: PO.
pub const STATE_21: [u8; 43] = [
    0, 1, 2, 131, 4, 133, 6, 135, 8, 21, 10, 11, 12, 13, 142, 143, 16, 17, 18, 19, 20, 149,
    150, 23, 24, 25, 67, 27, 28, 29, 30, 159, 160, 161, 162, 163, 36, 37, 38, 167, 168, 169, 21,
];

/// The transitions from state 22: PR.
pub const STATE_22: [u8; 43] = [
    0, 1, 2, 131, 4, 133, 6, 135, 8, 22, 10, 11, 12, 13, 14, 143, 16, 17, 18, 19, 20, 149,
    150, 23, 24, 25, 68, 27, 28, 29, 30, 31, 32, 33, 34, 35, 36, 37, 38, 167, 40, 41, 22,
];

/// The transitions from state 23: QU.
pub const STATE_23: [u8; 43] = [
    0, 1, 2, 3, 4, 5, 6, 7, 8, 23, 10, 11, 12, 13, 14, 15, 16, 17, 18, 19, 20, 21,
    22, 23, 24, 25, 69, 27, 28, 29, 30, 31, 32, 33, 34, 35, 36, 37, 38, 39, 40, 41, 23,
];

/// The transitions from state 24: SA.
pub const STATE_24: [u8; 43] = [
    0, 1, 2, 131, 4, 133, 6, 135, 8, 24, 10, 11, 12, 13, 142, 15, 16, 17, 18, 19, 20, 21,
    22, 23, 24, 25, 70, 27, 28, 29, 30, 159, 160, 161, 162, 163, 36, 37, 38, 167, 168, 169, 24,
];

/// The transitions from state 25: SG.
pub const STATE_25: [u8; 43] = [
    0, 1, 2, 131, 4, 133, 6, 135, 8, 25, 10, 11, 12, 13, 142, 15, 16, 17, 18, 19, 20, 21,
    22, 23, 24, 25, 71, 27, 28, 29, 30, 159, 160, 161, 162, 163, 36, 37, 38, 167, 168, 169, 25,
];

/// The transitions from state 26: SP.
pub const STATE_26: [u8; 43] = [
    128, 129, 130, 131, 132, 133, 6, 135, 8, 130, 10, 11, 140, 141, 142, 143, 16, 17, 146, 147, 148, 149,
    150, 151, 152, 153, 72, 27, 28, 29, 30, 159, 160, 161, 162, 163, 36, 165, 166, 167, 168, 169, 130,
];

/// The transitions from state 27: SY.
pub const STATE_27: [u8; 43] = [
    128, 129, 130, 131, 4, 133, 6, 135, 8, 27, 10, 11, 12, 13, 142, 143, 16, 17, 18, 19, 148, 149,
    150, 23, 152, 153, 73, 27, 28, 29, 30, 159, 160, 161, 162, 163, 36, 37, 38, 167, 168, 169, 27,
];

/// The transitions from state 28: ZW.
pub const STATE_28: [u8; 43] = [
    128, 129, 130, 131, 132, 133, 6, 135, 136, 130, 10, 139, 140, 141, 142, 143, 144, 17, 146, 147, 148, 149,
    150, 151, 152, 153, 74, 155, 28, 29, 158, 159, 160, 161, 162, 163, 164, 165, 166, 167, 168, 169, 130,
];

/// The transitions from state 29: NL.
pub const STATE_29: [u8; 43] = [
    192, 193, 194, 195, 196, 197, 198, 199, 200, 194, 202, 203, 204, 205, 206, 207, 208, 209, 210, 211, 212, 213,
    214, 215, 216, 217, 218, 219, 220, 221, 222, 223, 224, 225, 226, 227, 228, 229, 230, 231, 232, 233, 194,
];

/// The transitions from state 30: WJ.
pub const STATE_30: [u8; 43] = [
    0, 1, 2, 3, 4, 5, 6, 7, 8, 30, 10, 11, 12, 13, 14, 15, 16, 17, 18, 19, 20, 21,
    22, 23, 24, 25, 76, 27, 28, 29, 30, 31, 32, 33, 34, 35, 36, 37, 38, 39, 40, 41, 30,
];

/// The transitions from state 31: H2.
pub const STATE_31: [u8; 43] = [
    128, 129, 130, 131, 4, 133, 6, 135, 8, 31, 10, 11, 12, 13, 142, 15, 16, 17, 18, 147, 148, 21,
    150, 23, 152, 153, 77, 27, 28, 29, 30, 159, 160, 161, 34, 35, 36, 37, 166, 167, 168, 169, 31,
];

/// The transitions from state 32: H3.
pub const STATE_32: [u8; 43] = [
    128, 129, 130, 131, 4, 133, 6, 135, 8, 32, 10, 11, 12, 13, 142, 15, 16, 17, 18, 147, 148, 21,
    150, 23, 152, 153, 78, 27, 28, 29, 30, 159, 160, 161, 34, 163, 36, 37, 166, 167, 168, 169, 32,
];

/// The transitions from state 33: JL.
pub const STATE_33: [u8; 43] = [
    128, 129, 130, 131, 4, 133, 6, 135, 8, 33, 10, 11, 12, 13, 142, 15, 16, 17, 18, 147, 148, 21,
    150, 23, 152, 153, 79, 27, 28, 29, 30, 31, 32, 33, 162, 35, 36, 37, 166, 167, 168, 169, 33,
];

/// The transitions from state 34: JT.
pub const STATE_34: [u8; 43] = [
    128, 129, 130, 131, 4, 133, 6, 135, 8, 34, 10, 11, 12, 13, 142, 15, 16, 17, 18, 147, 148, 21,
    150, 23, 152, 153, 80, 27, 28, 29, 30, 159, 160, 161, 34, 163, 36, 37, 166, 167, 168, 169, 34,
];

/// The transitions from state 35: JV.
pub const STATE_35: [u8; 43] = [
    128, 129, 130, 131, 4, 133, 6, 135, 8, 35, 10, 11, 12, 13, 142, 15, 16, 17, 18, 147, 148, 21,
    150, 23, 152, 153, 81, 27, 28, 29, 30, 159, 160, 161, 34, 35, 36, 37, 166, 167, 168, 169, 35,
];

/// The transitions from state 36: CP.
pub const STATE_36: [u8; 43] = [
    0, 1, 2, 131, 4, 133, 6, 135, 8, 36, 10, 11, 12, 13, 142, 143, 16, 17, 18, 19, 148, 21,
    22, 23, 24, 25, 82, 27, 28, 29, 30, 159, 160, 161, 162, 163, 36, 37, 38, 167, 168, 169, 36,
];

/// The transitions from state 37: CJ.
pub const STATE_37: [u8; 43] = [
    128, 129, 130, 131, 4, 133, 6, 135, 8, 37, 10, 11, 12, 13, 142, 143, 16, 17, 18, 147, 148, 149,
    150, 23, 152, 153, 83, 27, 28, 29, 30, 159, 160, 161, 162, 163, 36, 37, 166, 167, 168, 169, 37,
];

/// The transitions from state 38: HL.
pub const STATE_38: [u8; 43] = [
    0, 1, 2, 131, 44, 133, 6, 135, 8, 38, 10, 11, 12, 43, 142, 15, 16, 17, 18, 19, 20, 21,
    22, 23, 24, 25, 84, 27, 28, 29, 30, 159, 160, 161, 162, 163, 36, 37, 38, 167, 168, 169, 38,
];

/// The transitions from state 39: RI.
pub const STATE_39: [u8; 43] = [
    128, 129, 130, 131, 4, 133, 6, 135, 8, 39, 10, 11, 12, 13, 142, 143, 16, 17, 18, 147, 148, 149,
    150, 23, 152, 153, 85, 27, 28, 29, 30, 159, 160, 161, 162, 163, 36, 37, 166, 45, 168, 169, 39,
];

/// The transitions from state 40: EB.
pub const STATE_40: [u8; 43] = [
    128, 129, 130, 131, 4, 133, 6, 135, 8, 40, 10, 11, 12, 13, 142, 15, 16, 17, 18, 147, 148, 21,
    150, 23, 152, 153, 86, 27, 28, 29, 30, 159, 160, 161, 162, 163, 36, 37, 166, 167, 168, 41, 40,
];

/// The transitions from state 41: EM.
pub const STATE_41: [u8; 43] = [
    128, 129, 130, 131, 4, 133, 6, 135, 8, 41, 10, 11, 12, 13, 142, 15, 16, 17, 18, 147, 148, 21,
    150, 23, 152, 153, 87, 27, 28, 29, 30, 159, 160, 161, 162, 163, 36, 37, 166, 167, 168, 169, 41,
];

/// The transitions from state 42: ZWJ.
pub const STATE_42: [u8; 43] = [
    0, 1, 2, 131, 4, 133, 6, 135, 8, 2, 10, 11, 12, 13, 14, 15, 16, 17, 18, 19, 20, 21,
    22, 23, 24, 25, 88, 27, 28, 29, 30, 159, 160, 161, 162, 163, 36, 37, 38, 167, 40, 41, 2,
];

/// The transitions from state 43: HL+HY.
pub const STATE_43: [u8; 43] = [
    0, 1, 2, 3, 4, 5, 6, 135, 8, 43, 10, 11, 12, 13, 14, 15, 16, 17, 18, 19, 20, 21,
    22, 23, 24, 25, 43, 27, 28, 29, 30, 31, 32, 33, 34, 35, 36, 37, 38, 39, 40, 41, 43,
];

/// The transitions from state 44: HL+BA.
pub const STATE_44: [u8; 43] = [
    0, 1, 2, 3, 4, 5, 6, 135, 8, 44, 10, 11, 12, 13, 14, 15, 16, 17, 18, 19, 20, 21,
    22, 23, 24, 25, 44, 27, 28, 29, 30, 31, 32, 33, 34, 35, 36, 37, 38, 39, 40, 41, 44,
];

/// The transitions from state 45: RI+RI.
pub const STATE_45: [u8; 43] = [
    128, 129, 130, 131, 4, 133, 6, 135, 8, 45, 10, 11, 140, 13, 142, 143, 16, 17, 18, 147, 148, 149,
    150, 23, 152, 153, 45, 27, 28, 29, 30, 159, 160, 161, 162, 163, 36, 37, 166, 167, 168, 169, 45,
];

/// The transitions from state 46: SP+ XX.
pub const STATE_46: [u8; 43] = [
    128, 129, 130, 131, 132, 133, 6, 135, 8, 137, 10, 11, 140, 141, 142, 143, 16, 17, 146, 147, 148, 149,
    150, 151, 152, 153, 26, 27, 28, 29, 30, 159, 160, 161, 162, 163, 36, 165, 166, 167, 168, 169, 170,
];

/// The transitions from state 47: SP+ AI.
pub const STATE_47: [u8; 43] = [
    128, 129, 130, 131, 132, 133, 6, 135, 8, 137, 10, 11, 140, 141, 142, 143, 16, 17, 146, 147, 148, 149,
    150, 151, 152, 153, 26, 27, 28, 29, 30, 159, 160, 161, 162, 163, 36, 165, 166, 167, 168, 169, 170,
];

/// The transitions from state 48: SP+ AL.
pub const STATE_48: [u8; 43] = [
    128, 129, 130, 131, 132, 133, 6, 135, 8, 137, 10, 11, 140, 141, 142, 143, 16, 17, 146, 147, 148, 149,
    150, 151, 152, 153, 26, 27, 28, 29, 30, 159, 160, 161, 162, 163, 36, 165, 166, 167, 168, 169, 170,
];

/// The transitions from state 49: SP+ B2.
pub const STATE_49: [u8; 43] = [
    128, 129, 130, 3, 132, 133, 6, 135, 8, 137, 10, 11, 140, 141, 142, 143, 16, 17, 146, 147, 148, 149,
    150, 151, 152, 153, 26, 27, 28, 29, 30, 159, 160, 161, 162, 163, 36, 165, 166, 167, 168, 169, 170,
];

/// The transitions from state 50: SP+ BA.
pub const STATE_50: [u8; 43] = [
    128, 129, 130, 131, 132, 133, 6, 135, 8, 137, 10, 11, 140, 141, 142, 143, 16, 17, 146, 147, 148, 149,
    150, 151, 152, 153, 26, 27, 28, 29, 30, 159, 160, 161, 162, 163, 36, 165, 166, 167, 168, 169, 170,
];

/// The transitions from state 51: SP+ BB.
pub const STATE_51: [u8; 43] = [
    128, 129, 130, 131, 132, 133, 6, 135, 8, 137, 10, 11, 140, 141, 142, 143, 16, 17, 146, 147, 148, 149,
    150, 151, 152, 153, 26, 27, 28, 29, 30, 159, 160, 161, 162, 163, 36, 165, 166, 167, 168, 169, 170,
];

/// The transitions from state 52: SP+ BK.
pub const STATE_52: [u8; 43] = [
    128, 129, 130, 131, 132, 133, 6, 135, 8, 130, 10, 11, 140, 141, 142, 143, 16, 17, 146, 147, 148, 149,
    150, 151, 152, 153, 26, 27, 28, 29, 30, 159, 160, 161, 162, 163, 36, 165, 166, 167, 168, 169, 130,
];

/// The transitions from state 53: SP+ CB.
pub const STATE_53: [u8; 43] = [
    128, 129, 130, 131, 132, 133, 6, 135, 8, 137, 10, 11, 140, 141, 142, 143, 16, 17, 146, 147, 148, 149,
    150, 151, 152, 153, 26, 27, 28, 29, 30, 159, 160, 161, 162, 163, 36, 165, 166, 167, 168, 169, 170,
];

/// The transitions from state 54: SP+ CL.
pub const STATE_54: [u8; 43] = [
    128, 129, 130, 131, 132, 133, 6, 135, 8, 137, 10, 11, 140, 141, 142, 143, 16, 17, 18, 147, 148, 149,
    150, 151, 152, 153, 26, 27, 28, 29, 30, 159, 160, 161, 162, 163, 36, 37, 166, 167, 168, 169, 170,
];

/// The transitions from state 55: SP+ CM.
pub const STATE_55: [u8; 43] = [
    128, 129, 130, 131, 132, 133, 6, 135, 8, 137, 10, 11, 140, 141, 142, 143, 16, 17, 146, 147, 148, 149,
    150, 151, 152, 153, 26, 27, 28, 29, 30, 159, 160, 161, 162, 163, 36, 165, 166, 167, 168, 169, 170,
];

/// The transitions from state 56: SP+ CR.
pub const STATE_56: [u8; 43] = [
    128, 129, 130, 131, 132, 133, 6, 135, 8, 130, 10, 11, 140, 141, 142, 143, 16, 17, 146, 147, 148, 149,
    150, 151, 152, 153, 26, 27, 28, 29, 30, 159, 160, 161, 162, 163, 36, 165, 166, 167, 168, 169, 130,
];

/// The transitions from state 57: SP+ EX.
pub const STATE_57: [u8; 43] = [
    128, 129, 130, 131, 132, 133, 6, 135, 8, 137, 10, 11, 140, 141, 142, 143, 16, 17, 146, 147, 148, 149,
    150, 151, 152, 153, 26, 27, 28, 29, 30, 159, 160, 161, 162, 163, 36, 165, 166, 167, 168, 169, 170,
];

/// The transitions from state 58: SP+ GL.
pub const STATE_58: [u8; 43] = [
    128, 129, 130, 131, 132, 133, 6, 135, 8, 137, 10, 11, 140, 141, 142, 143, 16, 17, 146, 147, 148, 149,
    150, 151, 152, 153, 26, 27, 28, 29, 30, 159, 160, 161, 162, 163, 36, 165, 166, 167, 168, 169, 170,
];

/// The transitions from state 59: SP+ HY.
pub const STATE_59: [u8; 43] = [
    128, 129, 130, 131, 132, 133, 6, 135, 8, 137, 10, 11, 140, 141, 142, 143, 16, 17, 146, 147, 148, 149,
    150, 151, 152, 153, 26, 27, 28, 29, 30, 159, 160, 161, 162, 163, 36, 165, 166, 167, 168, 169, 170,
];

/// The transitions from state 60: SP+ ID.
pub const STATE_60: [u8; 43] = [
    128, 129, 130, 131, 132, 133, 6, 135, 8, 137, 10, 11, 140, 141, 142, 143, 16, 17, 146, 147, 148, 149,
    150, 151, 152, 153, 26, 27, 28, 29, 30, 159, 160, 161, 162, 163, 36, 165, 166, 167, 168, 169, 170,
];

/// The transitions from state 61: SP+ IN.
pub const STATE_61: [u8; 43] = [
    128, 129, 130, 131, 132, 133, 6, 135, 8, 137, 10, 11, 140, 141, 142, 143, 16, 17, 146, 147, 148, 149,
    150, 151, 152, 153, 26, 27, 28, 29, 30, 159, 160, 161, 162, 163, 36, 165, 166, 167, 168, 169, 170,
];

/// The transitions from state 62: SP+ IS.
pub const STATE_62: [u8; 43] = [
    128, 129, 130, 131, 132, 133, 6, 135, 8, 137, 10, 11, 140, 141, 142, 143, 16, 17, 146, 147, 148, 149,
    150, 151, 152, 153, 26, 27, 28, 29, 30, 159, 160, 161, 162, 163, 36, 165, 166, 167, 168, 169, 170,
];

/// The transitions from state 63: SP+ LF.
pub const STATE_63: [u8; 43] = [
    128, 129, 130, 131, 132, 133, 6, 135, 8, 130, 10, 11, 140, 141, 142, 143, 16, 17, 146, 147, 148, 149,
    150, 151, 152, 153, 26, 27, 28, 29, 30, 159, 160, 161, 162, 163, 36, 165, 166, 167, 168, 169, 130,
];

/// The transitions from state 64: SP+ NS.
pub const STATE_64: [u8; 43] = [
    128, 129, 130, 131, 132, 133, 6, 135, 8, 137, 10, 11, 140, 141, 142, 143, 16, 17, 146, 147, 148, 149,
    150, 151, 152, 153, 26, 27, 28, 29, 30, 159, 160, 161, 162, 163, 36, 165, 166, 167, 168, 169, 170,
];

/// The transitions from state 65: SP+ NU.
pub const STATE_65: [u8; 43] = [
    128, 129, 130, 131, 132, 133, 6, 135, 8, 137, 10, 11, 140, 141, 142, 143, 16, 17, 146, 147, 148, 149,
    150, 151, 152, 153, 26, 27, 28, 29, 30, 159, 160, 161, 162, 163, 36, 165, 166, 167, 168, 169, 170,
];

/// The transitions from state 66: SP+ OP.
pub const STATE_66: [u8; 43] = [
    0, 1, 2, 3, 4, 5, 6, 7, 8, 9, 10, 11, 12, 13, 14, 15, 16, 17, 18, 19, 20, 21,
    22, 23, 24, 25, 26, 27, 28, 29, 30, 31, 32, 33, 34, 35, 36, 37, 38, 39, 40, 41, 42,
];

/// The transitions from state 67: SP+ PO.
pub const STATE_67: [u8; 43] = [
    128, 129, 130, 131, 132, 133, 6, 135, 8, 137, 10, 11, 140, 141, 142, 143, 16, 17, 146, 147, 148, 149,
    150, 151, 152, 153, 26, 27, 28, 29, 30, 159, 160, 161, 162, 163, 36, 165, 166, 167, 168, 169, 170,
];

/// The transitions from state 68: SP+ PR.
pub const STATE_68: [u8; 43] = [
    128, 129, 130, 131, 132, 133, 6, 135, 8, 137, 10, 11, 140, 141, 142, 143, 16, 17, 146, 147, 148, 149,
    150, 151, 152, 153, 26, 27, 28, 29, 30, 159, 160, 161, 162, 163, 36, 165, 166, 167, 168, 169, 170,
];

/// The transitions from state 69: SP+ QU.
pub const STATE_69: [u8; 43] = [
    128, 129, 130, 131, 132, 133, 6, 135, 8, 137, 10, 11, 140, 141, 142, 143, 16, 17, 146, 147, 20, 149,
    150, 151, 152, 153, 26, 27, 28, 29, 30, 159, 160, 161, 162, 163, 36, 165, 166, 167, 168, 169, 170,
];

/// The transitions from state 70: SP+ SA.
pub const STATE_70: [u8; 43] = [
    128, 129, 130, 131, 132, 133, 6, 135, 8, 137, 10, 11, 140, 141, 142, 143, 16, 17, 146, 147, 148, 149,
    150, 151, 152, 153, 26, 27, 28, 29, 30, 159, 160, 161, 162, 163, 36, 165, 166, 167, 168, 169, 170,
];

/// The transitions from state 71: SP+ SG.
pub const STATE_71: [u8; 43] = [
    128, 129, 130, 131, 132, 133, 6, 135, 8, 137, 10, 11, 140, 141, 142, 143, 16, 17, 146, 147, 148, 149,
    150, 151, 152, 153, 26, 27, 28, 29, 30, 159, 160, 161, 162, 163, 36, 165, 166, 167, 168, 169, 170,
];

/// The transitions from state 72: SP+ SP.
pub const STATE_72: [u8; 43] = [
    128, 129, 130, 131, 132, 133, 6, 135, 8, 130, 10, 11, 140, 141, 142, 143, 16, 17, 146, 147, 148, 149,
    150, 151, 152, 153, 26, 27, 28, 29, 30, 159, 160, 161, 162, 163, 36, 165, 166, 167, 168, 169, 130,
];

/// The transitions from state 73: SP+ SY.
pub const STATE_73: [u8; 43] = [
    128, 129, 130, 131, 132, 133, 6, 135, 8, 137, 10, 11, 140, 141, 142, 143, 16, 17, 146, 147, 148, 149,
    150, 151, 152, 153, 26, 27, 28, 29, 30, 159, 160, 161, 162, 163, 36, 165, 166, 167, 168, 169, 170,
];

/// The transitions from state 74: SP+ ZW.
pub const STATE_74: [u8; 43] = [
    128, 129, 130, 131, 132, 133, 6, 135, 136, 130, 10, 139, 140, 141, 142, 143, 144, 17, 146, 147, 148, 149,
    150, 151, 152, 153, 26, 155, 28, 29, 158, 159, 160, 161, 162, 163, 164, 165, 166, 167, 168, 169, 130,
];

/// The transitions from state 75: SP+ NL.
pub const STATE_75: [u8; 43] = [
    128, 129, 130, 131, 132, 133, 6, 135, 8, 130, 10, 11, 140, 141, 142, 143, 16, 17, 146, 147, 148, 149,
    150, 151, 152, 153, 26, 27, 28, 29, 30, 159, 160, 161, 162, 163, 36, 165, 166, 167, 168, 169, 130,
];

/// The transitions from state 76: SP+ WJ.
pub const STATE_76: [u8; 43] = [
    128, 129, 130, 131, 132, 133, 6, 135, 8, 137, 10, 11, 140, 141, 142, 143, 16, 17, 146, 147, 148, 149,
    150, 151, 152, 153, 26, 27, 28, 29, 30, 159, 160, 161, 162, 163, 36, 165, 166, 167, 168, 169, 170,
];

/// The transitions from state 77: SP+ H2.
pub const STATE_77: [u8; 43] = [
    128, 129, 130, 131, 132, 133, 6, 135, 8, 137, 10, 11, 140, 141, 142, 143, 16, 17, 146, 147, 148, 149,
    150, 151, 152, 153, 26, 27, 28, 29, 30, 159, 160, 161, 162, 163, 36, 165, 166, 167, 168, 169, 170,
];

/// The transitions from state 78: SP+ H3.
pub const STATE_78: [u8; 43] = [
    128, 129, 130, 131, 132, 133, 6, 135, 8, 137, 10, 11, 140, 141, 142, 143, 16, 17, 146, 147, 148, 149,
    150, 151, 152, 153, 26, 27, 28, 29, 30, 159, 160, 161, 162, 163, 36, 165, 166, 167, 168, 169, 170,
];

/// The transitions from state 79: SP+ JL.
pub const STATE_79: [u8; 43] = [
    128, 129, 130, 131, 132, 133, 6, 135, 8, 137, 10, 11, 140, 141, 142, 143, 16, 17, 146, 147, 148, 149,
    150, 151, 152, 153, 26, 27, 28, 29, 30, 159, 160, 161, 162, 163, 36, 165, 166, 167, 168, 169, 170,
];

/// The transitions from state 80: SP+ JT.
pub const STATE_80: [u8; 43] = [
    128, 129, 130, 131, 132, 133, 6, 135, 8, 137, 10, 11, 140, 141, 142, 143, 16, 17, 146, 147, 148, 149,
    150, 151, 152, 153, 26, 27, 28, 29, 30, 159, 160, 161, 162, 163, 36, 165, 166, 167, 168, 169, 170,
];

/// The transitions from state 81: SP+ JV.
pub const STATE_81: [u8; 43] = [
    128, 129, 130, 131, 132, 133, 6, 135, 8, 137, 10, 11, 140, 141, 142, 143, 16, 17, 146, 147, 148, 149,
    150, 151, 152, 153, 26, 27, 28, 29, 30, 159, 160, 161, 162, 163, 36, 165, 166, 167, 168, 169, 170,
];

/// The transitions from state 82: SP+ CP.
pub const STATE_82: [u8; 43] = [
    128, 129, 130, 131, 132, 133, 6, 135, 8, 137, 10, 11, 140, 141, 142, 143, 16, 17, 18, 147, 148, 149,
    150, 151, 152, 153, 26, 27, 28, 29, 30, 159, 160, 161, 162, 163, 36, 37, 166, 167, 168, 169, 170,
];

/// The transitions from state 83: SP+ CJ.
pub const STATE_83: [u8; 43] = [
    128, 129, 130, 131, 132, 133, 6, 135, 8, 137, 10, 11, 140, 141, 142, 143, 16, 17, 146, 147, 148, 149,
    150, 151, 152, 153, 26, 27, 28, 29, 30, 159, 160, 161, 162, 163, 36, 165, 166, 167, 168, 169, 170,
];

/// The transitions from state 84: SP+ HL.
pub const STATE_84: [u8; 43] = [
    128, 129, 130, 131, 132, 133, 6, 135, 8, 137, 10, 11, 140, 141, 142, 143, 16, 17, 146, 147, 148, 149,
    150, 151, 152, 153, 26, 27, 28, 29, 30, 159, 160, 161, 162, 163, 36, 165, 166, 167, 168, 169, 170,
];

/// The transitions from state 85: SP+ RI.
pub const STATE_85: [u8; 43] = [
    128, 129, 130, 131, 132, 133, 6, 135, 8, 137, 10, 11, 140, 141, 142, 143, 16, 17, 146, 147, 148, 149,
    150, 151, 152, 153, 26, 27, 28, 29, 30, 159, 160, 161, 162, 163, 36, 165, 166, 167, 168, 169, 170,
];

/// The transitions from state 86: SP+ EB.
pub const STATE_86: [u8; 43] = [
    128, 129, 130, 131, 132, 133, 6, 135, 8, 137, 10, 11, 140, 141, 142, 143, 16, 17, 146, 147, 148, 149,
    150, 151, 152, 153, 26, 27, 28, 29, 30, 159, 160, 161, 162, 163, 36, 165, 166, 167, 168, 169, 170,
];

/// The transitions from state 87: SP+ EM.
pub const STATE_87: [u8; 43] = [
    128, 129, 130, 131, 132, 133, 6, 135, 8, 137, 10, 11, 140, 141, 142, 143, 16, 17, 146, 147, 148, 149,
    150, 151, 152, 153, 26, 27, 28, 29, 30, 159, 160, 161, 162, 163, 36, 165, 166, 167, 168, 169, 170,
];

/// The transitions from state 88: SP+ ZWJ.
pub const STATE_88: [u8; 43] = [
    128, 129, 130, 131, 132, 133, 6, 135, 8, 137, 10, 11, 140, 141, 142, 143, 16, 17, 146, 147, 148, 149,
    150, 151, 152, 153, 26, 27, 28, 29, 30, 159, 160, 161, 162, 163, 36, 165, 166, 167, 168, 169, 170,
];

/// The transitions of the line breaking state machine: the entry at `[state][class]` is what
/// follows a character of line breaking class `class` in `state`. When its high bit is set there
/// is a break before the character, a hard one when the two high bits are set, and the low six
/// bits give the next state; otherwise the entry is the next state.
pub const LINEBREAK_STATE_MACHINE: [[u8; 43]; 89] = [
    STATE_0, STATE_1, STATE_2, STATE_3, STATE_4, STATE_5, STATE_6, STATE_7,
    STATE_8, STATE_9, STATE_10, STATE_11, STATE_12, STATE_13, STATE_14, STATE_15,
    STATE_16, STATE_17, STATE_18, STATE_19, STATE_20, STATE_21, STATE_22, STATE_23,
    STATE_24, STATE_25, STATE_26, STATE_27, STATE_28, STATE_29, STATE_30, STATE_31,
    STATE_32, STATE_33, STATE_34, STATE_35, STATE_36, STATE_37, STATE_38, STATE_39,
    STATE_40, STATE_41, STATE_42, STATE_43, STATE_44, STATE_45, STATE_46, STATE_47,
    STATE_48, STATE_49, STATE_50, STATE_51, STATE_52, STATE_53, STATE_54, STATE_55,
    STATE_56, STATE_57, STATE_58, STATE_59, STATE_60, STATE_61, STATE_62, STATE_63,
    STATE_64, STATE_65, STATE_66, STATE_67, STATE_68, STATE_69, STATE_70, STATE_71,
    STATE_72, STATE_73, STATE_74, STATE_75, STATE_76, STATE_77, STATE_78, STATE_79,
    STATE_80, STATE_81, STATE_82, STATE_83, STATE_84, STATE_85, STATE_86, STATE_87,
    STATE_88,
];

} // verus!
