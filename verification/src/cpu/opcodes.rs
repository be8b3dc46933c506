//! The opcodes of the instructions the CPU runs.
use vstd::prelude::*;

verus! {

pub const CALL_A16: u8 = 0xcd;
pub const CALL_NZ_A16: u8 = 0xc4;
pub const CALL_Z_A16: u8 = 0xcc;
pub const CALL_NC_A16: u8 = 0xd4;
pub const CALL_C_A16: u8 = 0xdc;
pub const DI: u8 = 0xf3;
pub const EI: u8 = 0xfb;
pub const NOP: u8 = 0x00;
pub const JP_A16: u8 = 0xc3;
pub const JP_HL: u8 = 0xe9;
pub const JP_NZ_A16: u8 = 0xc2;
pub const JP_Z_A16: u8 = 0xca;
pub const JP_NC_A16: u8 = 0xd2;
pub const JP_C_A16: u8 = 0xda;
pub const JR_R8: u8 = 0x18;
pub const JR_NZ_R8: u8 = 0x20;
pub const JR_Z_R8: u8 = 0x28;
pub const JR_NC_R8: u8 = 0x30;
pub const JR_C_R8: u8 = 0x38;
pub const RET: u8 = 0xc9;
pub const RET_NZ: u8 = 0xc0;
pub const RET_Z: u8 = 0xc8;
pub const RET_NC: u8 = 0xd0;
pub const RET_C: u8 = 0xd8;
pub const RST_00: u8 = 0xc7;
pub const RST_08: u8 = 0xcf;
pub const RST_10: u8 = 0xd7;
pub const RST_18: u8 = 0xdf;
pub const RST_20: u8 = 0xe7;
pub const RST_28: u8 = 0xef;
pub const RST_30: u8 = 0xf7;
pub const RST_38: u8 = 0xff;
pub const PUSH_A16_AF: u8 = 0xf5;
pub const PUSH_A16_BC: u8 = 0xc5;
pub const PUSH_A16_DE: u8 = 0xd5;
pub const PUSH_A16_HL: u8 = 0xe5;
pub const POP_A16_AF: u8 = 0xf1;
pub const POP_A16_BC: u8 = 0xc1;
pub const POP_A16_DE: u8 = 0xd1;
pub const POP_A16_HL: u8 = 0xe1;
pub const LD_BC_A: u8 = 0x02;
pub const LD_DE_A: u8 = 0x12;
pub const LD_HL_A: u8 = 0x77;
pub const LD_A16_A: u8 = 0xea;
pub const LD_A_D8: u8 = 0x3e;
pub const LD_A_A: u8 = 0x7f;
pub const LD_A_B: u8 = 0x78;
pub const LD_A_C: u8 = 0x79;
pub const LD_A_D: u8 = 0x7a;
pub const LD_A_E: u8 = 0x7b;
pub const LD_A_H: u8 = 0x7c;
pub const LD_A_L: u8 = 0x7d;
pub const LD_A_BC: u8 = 0x0a;
pub const LD_A_DE: u8 = 0x1a;
pub const LD_A_HL: u8 = 0x7e;
pub const LD_A_A16: u8 = 0xfa;
pub const LD_B_A: u8 = 0x47;
pub const LD_B_B: u8 = 0x40;
pub const LD_B_C: u8 = 0x41;
pub const LD_B_D: u8 = 0x42;
pub const LD_B_E: u8 = 0x43;
pub const LD_B_H: u8 = 0x44;
pub const LD_B_L: u8 = 0x45;
pub const LD_B_HL: u8 = 0x46;
pub const LD_C_B: u8 = 0x48;
pub const LD_C_C: u8 = 0x49;
pub const LD_C_D: u8 = 0x4a;
pub const LD_C_E: u8 = 0x4b;
pub const LD_C_H: u8 = 0x4c;
pub const LD_C_L: u8 = 0x4d;
pub const LD_C_HL: u8 = 0x4e;
pub const LD_D_B: u8 = 0x50;
pub const LD_D_C: u8 = 0x51;
pub const LD_D_D: u8 = 0x52;
pub const LD_D_E: u8 = 0x53;
pub const LD_D_H: u8 = 0x54;
pub const LD_D_L: u8 = 0x55;
pub const LD_D_HL: u8 = 0x56;
pub const LD_E_B: u8 = 0x58;
pub const LD_E_C: u8 = 0x59;
pub const LD_E_D: u8 = 0x5a;
pub const LD_E_E: u8 = 0x5b;
pub const LD_E_H: u8 = 0x5c;
pub const LD_E_L: u8 = 0x5d;
pub const LD_E_HL: u8 = 0x5e;
pub const LD_H_B: u8 = 0x60;
pub const LD_H_C: u8 = 0x61;
pub const LD_H_D: u8 = 0x62;
pub const LD_H_E: u8 = 0x63;
pub const LD_H_H: u8 = 0x64;
pub const LD_H_L: u8 = 0x65;
pub const LD_H_HL: u8 = 0x66;
pub const LD_H_A: u8 = 0x67;
pub const LD_L_B: u8 = 0x68;
pub const LD_L_C: u8 = 0x69;
pub const LD_L_D: u8 = 0x6a;
pub const LD_L_E: u8 = 0x6b;
pub const LD_L_H: u8 = 0x6c;
pub const LD_L_L: u8 = 0x6d;
pub const LD_L_HL: u8 = 0x6e;
pub const LD_L_A: u8 = 0x6f;
pub const LD_HL_B: u8 = 0x70;
pub const LD_HL_C: u8 = 0x71;
pub const LD_HL_D: u8 = 0x72;
pub const LD_HL_E: u8 = 0x73;
pub const LD_HL_H: u8 = 0x74;
pub const LD_HL_L: u8 = 0x75;
pub const LD_B_D8: u8 = 0x06;
pub const LD_C_D8: u8 = 0x0e;
pub const LD_D_D8: u8 = 0x16;
pub const LD_E_D8: u8 = 0x1e;
pub const LD_H_D8: u8 = 0x26;
pub const LD_L_D8: u8 = 0x2e;
pub const LD_BC_D16: u8 = 0x01;
pub const LD_DE_D16: u8 = 0x11;
pub const LD_HL_D16: u8 = 0x21;
pub const LD_SP_D16: u8 = 0x31;
pub const LD_SP_HL: u8 = 0xf9;
pub const LDH_A8_A: u8 = 0xe0;
pub const LDH_A_A8: u8 = 0xf0;
pub const LDI_A_HL: u8 = 0x2a;
pub const LDI_HL_A: u8 = 0x22;
pub const LDD_HL_A: u8 = 0x32;
pub const LDHL_SP_R8: u8 = 0xf8;
pub const LD_A16_SP: u8 = 0x08;
pub const INC_A: u8 = 0x3c;
pub const INC_B: u8 = 0x04;
pub const INC_C: u8 = 0x0c;
pub const INC_D: u8 = 0x14;
pub const INC_E: u8 = 0x1c;
pub const INC_H: u8 = 0x24;
pub const INC_L: u8 = 0x2c;
pub const INC_AHL: u8 = 0x34;
pub const INC_BC: u8 = 0x03;
pub const INC_DE: u8 = 0x13;
pub const INC_HL: u8 = 0x23;
pub const INC_SP: u8 = 0x33;
pub const DEC_A: u8 = 0x3d;
pub const DEC_B: u8 = 0x05;
pub const DEC_C: u8 = 0x0d;
pub const DEC_D: u8 = 0x15;
pub const DEC_E: u8 = 0x1d;
pub const DEC_H: u8 = 0x25;
pub const DEC_L: u8 = 0x2d;
pub const DEC_AHL: u8 = 0x35;
pub const DEC_BC: u8 = 0x0b;
pub const DEC_DE: u8 = 0x1b;
pub const DEC_HL: u8 = 0x2b;
pub const DEC_SP: u8 = 0x3b;
pub const ADD_A_A: u8 = 0x87;
pub const ADD_A_B: u8 = 0x80;
pub const ADD_A_C: u8 = 0x81;
pub const ADD_A_D: u8 = 0x82;
pub const ADD_A_E: u8 = 0x83;
pub const ADD_A_H: u8 = 0x84;
pub const ADD_A_L: u8 = 0x85;
pub const ADD_A_HL: u8 = 0x86;
pub const ADD_A_D8: u8 = 0xc6;
pub const ADD_HL_BC: u8 = 0x09;
pub const ADD_HL_DE: u8 = 0x19;
pub const ADD_HL_HL: u8 = 0x29;
pub const ADD_HL_SP: u8 = 0x39;
pub const ADD_SP_R8: u8 = 0xe8;
pub const ADC_A_A: u8 = 0x8f;
pub const ADC_A_B: u8 = 0x88;
pub const ADC_A_C: u8 = 0x89;
pub const ADC_A_D: u8 = 0x8a;
pub const ADC_A_E: u8 = 0x8b;
pub const ADC_A_H: u8 = 0x8c;
pub const ADC_A_L: u8 = 0x8d;
pub const ADC_A_HL: u8 = 0x8e;
pub const ADC_A_D8: u8 = 0xce;
pub const SUB_A_A: u8 = 0x97;
pub const SUB_A_B: u8 = 0x90;
pub const SUB_A_C: u8 = 0x91;
pub const SUB_A_D: u8 = 0x92;
pub const SUB_A_E: u8 = 0x93;
pub const SUB_A_H: u8 = 0x94;
pub const SUB_A_L: u8 = 0x95;
pub const SUB_A_HL: u8 = 0x96;
pub const SUB_A_D8: u8 = 0xd6;
pub const AND_A_A: u8 = 0xa7;
pub const AND_A_B: u8 = 0xa0;
pub const AND_A_C: u8 = 0xa1;
pub const AND_A_D: u8 = 0xa2;
pub const AND_A_E: u8 = 0xa3;
pub const AND_A_H: u8 = 0xa4;
pub const AND_A_L: u8 = 0xa5;
pub const AND_A_HL: u8 = 0xa6;
pub const AND_A_D8: u8 = 0xe6;
pub const XOR_A_A: u8 = 0xaf;
pub const XOR_A_B: u8 = 0xa8;
pub const XOR_A_C: u8 = 0xa9;
pub const XOR_A_D: u8 = 0xaa;
pub const XOR_A_E: u8 = 0xab;
pub const XOR_A_H: u8 = 0xac;
pub const XOR_A_L: u8 = 0xad;
pub const XOR_A_HL: u8 = 0xae;
pub const XOR_A_D8: u8 = 0xee;
pub const OR_A_A: u8 = 0xb7;
pub const OR_A_B: u8 = 0xb0;
pub const OR_A_C: u8 = 0xb1;
pub const OR_A_D: u8 = 0xb2;
pub const OR_A_E: u8 = 0xb3;
pub const OR_A_H: u8 = 0xb4;
pub const OR_A_L: u8 = 0xb5;
pub const OR_A_HL: u8 = 0xb6;
pub const OR_A_D8: u8 = 0xf6;
pub const CP_A: u8 = 0xbf;
pub const CP_B: u8 = 0xb8;
pub const CP_C: u8 = 0xb9;
pub const CP_D: u8 = 0xba;
pub const CP_E: u8 = 0xbb;
pub const CP_H: u8 = 0xbc;
pub const CP_L: u8 = 0xbd;
pub const CP_HL: u8 = 0xbe;
pub const CP_D8: u8 = 0xfe;
pub const RLCA: u8 = 0x07;
pub const RRCA: u8 = 0x0f;

} // verus!
