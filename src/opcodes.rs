use vstd::prelude::*;

verus! {

// Opcode values, named mnemonic_mode.
pub const ADC_IMM: u8 = 0x69;
pub const ADC_ZPG: u8 = 0x65;
pub const ADC_ZPX: u8 = 0x75;
pub const ADC_ABS: u8 = 0x6d;
pub const ADC_ABX: u8 = 0x7d;
pub const ADC_ABY: u8 = 0x79;
pub const ADC_INX: u8 = 0x61;
pub const ADC_INY: u8 = 0x71;
pub const AND_IMM: u8 = 0x29;
pub const AND_ZPG: u8 = 0x25;
pub const AND_ZPX: u8 = 0x35;
pub const AND_ABS: u8 = 0x2d;
pub const AND_ABX: u8 = 0x3d;
pub const AND_ABY: u8 = 0x39;
pub const AND_INX: u8 = 0x21;
pub const AND_INY: u8 = 0x31;
pub const ASL_ACC: u8 = 0x0a;
pub const ASL_ZPG: u8 = 0x06;
pub const ASL_ZPX: u8 = 0x16;
pub const ASL_ABS: u8 = 0x0e;
pub const ASL_ABX: u8 = 0x1e;
pub const BCC_REL: u8 = 0x90;
pub const BCS_REL: u8 = 0xb0;
pub const BEQ_REL: u8 = 0xf0;
pub const BIT_ZPG: u8 = 0x24;
pub const BIT_ABS: u8 = 0x2c;
pub const BMI_REL: u8 = 0x30;
pub const BNE_REL: u8 = 0xd0;
pub const BPL_REL: u8 = 0x10;
pub const BRK_IMP: u8 = 0x00;
pub const BVC_REL: u8 = 0x50;
pub const BVS_REL: u8 = 0x70;
pub const CLC_IMP: u8 = 0x18;
pub const CLD_IMP: u8 = 0xd8;
pub const CLI_IMP: u8 = 0x58;
pub const CLV_IMP: u8 = 0xb8;
pub const CMP_IMM: u8 = 0xc9;
pub const CMP_ZPG: u8 = 0xc5;
pub const CMP_ZPX: u8 = 0xd5;
pub const CMP_ABS: u8 = 0xcd;
pub const CMP_ABX: u8 = 0xdd;
pub const CMP_ABY: u8 = 0xd9;
pub const CMP_INX: u8 = 0xc1;
pub const CMP_INY: u8 = 0xd1;
pub const CPX_IMM: u8 = 0xe0;
pub const CPX_ZPG: u8 = 0xe4;
pub const CPX_ABS: u8 = 0xec;
pub const CPY_IMM: u8 = 0xc0;
pub const CPY_ZPG: u8 = 0xc4;
pub const CPY_ABS: u8 = 0xcc;
pub const DEC_ZPG: u8 = 0xc6;
pub const DEC_ZPX: u8 = 0xd6;
pub const DEC_ABS: u8 = 0xce;
pub const DEC_ABX: u8 = 0xde;
pub const DEX_IMP: u8 = 0xca;
pub const DEY_IMP: u8 = 0x88;
pub const EOR_IMM: u8 = 0x49;
pub const EOR_ZPG: u8 = 0x45;
pub const EOR_ZPX: u8 = 0x55;
pub const EOR_ABS: u8 = 0x4d;
pub const EOR_ABX: u8 = 0x5d;
pub const EOR_ABY: u8 = 0x59;
pub const EOR_INX: u8 = 0x41;
pub const EOR_INY: u8 = 0x51;
pub const INC_ZPG: u8 = 0xe6;
pub const INC_ZPX: u8 = 0xf6;
pub const INC_ABS: u8 = 0xee;
pub const INC_ABX: u8 = 0xfe;
pub const INX_IMP: u8 = 0xe8;
pub const INY_IMP: u8 = 0xc8;
pub const JMP_ABS: u8 = 0x4c;
pub const JMP_IND: u8 = 0x6c;
pub const JSR_ABS: u8 = 0x20;
pub const LDA_IMM: u8 = 0xa9;
pub const LDA_ZPG: u8 = 0xa5;
pub const LDA_ZPX: u8 = 0xb5;
pub const LDA_ABS: u8 = 0xad;
pub const LDA_ABX: u8 = 0xbd;
pub const LDA_ABY: u8 = 0xb9;
pub const LDA_INX: u8 = 0xa1;
pub const LDA_INY: u8 = 0xb1;
pub const LDX_IMM: u8 = 0xa2;
pub const LDX_ZPG: u8 = 0xa6;
pub const LDX_ZPY: u8 = 0xb6;
pub const LDX_ABS: u8 = 0xae;
pub const LDX_ABY: u8 = 0xbe;
pub const LDY_IMM: u8 = 0xa0;
pub const LDY_ZPG: u8 = 0xa4;
pub const LDY_ZPX: u8 = 0xb4;
pub const LDY_ABS: u8 = 0xac;
pub const LDY_ABX: u8 = 0xbc;
pub const LSR_ACC: u8 = 0x4a;
pub const LSR_ZPG: u8 = 0x46;
pub const LSR_ZPX: u8 = 0x56;
pub const LSR_ABS: u8 = 0x4e;
pub const LSR_ABX: u8 = 0x5e;
pub const NOP_IMP: u8 = 0xea;
pub const ORA_IMM: u8 = 0x09;
pub const ORA_ZPG: u8 = 0x05;
pub const ORA_ZPX: u8 = 0x15;
pub const ORA_ABS: u8 = 0x0d;
pub const ORA_ABX: u8 = 0x1d;
pub const ORA_ABY: u8 = 0x19;
pub const ORA_INX: u8 = 0x01;
pub const ORA_INY: u8 = 0x11;
pub const PHA_IMP: u8 = 0x48;
pub const PHP_IMP: u8 = 0x08;
pub const PLA_IMP: u8 = 0x68;
pub const PLP_IMP: u8 = 0x28;
pub const ROL_ACC: u8 = 0x2a;
pub const ROL_ZPG: u8 = 0x26;
pub const ROL_ZPX: u8 = 0x36;
pub const ROL_ABS: u8 = 0x2e;
pub const ROL_ABX: u8 = 0x3e;
pub const ROR_ACC: u8 = 0x6a;
pub const ROR_ZPG: u8 = 0x66;
pub const ROR_ZPX: u8 = 0x76;
pub const ROR_ABS: u8 = 0x6e;
pub const ROR_ABX: u8 = 0x7e;
pub const RTI_IMP: u8 = 0x40;
pub const RTS_IMP: u8 = 0x60;
pub const SBC_IMM: u8 = 0xe9;
pub const SBC_ZPG: u8 = 0xe5;
pub const SBC_ZPX: u8 = 0xf5;
pub const SBC_ABS: u8 = 0xed;
pub const SBC_ABX: u8 = 0xfd;
pub const SBC_ABY: u8 = 0xf9;
pub const SBC_INX: u8 = 0xe1;
pub const SBC_INY: u8 = 0xf1;
pub const SEC_IMP: u8 = 0x38;
pub const SED_IMP: u8 = 0xf8;
pub const SEI_IMP: u8 = 0x78;
pub const STA_ZPG: u8 = 0x85;
pub const STA_ZPX: u8 = 0x95;
pub const STA_ABS: u8 = 0x8d;
pub const STA_ABX: u8 = 0x9d;
pub const STA_ABY: u8 = 0x99;
pub const STA_INX: u8 = 0x81;
pub const STA_INY: u8 = 0x91;
pub const STX_ZPG: u8 = 0x86;
pub const STX_ZPY: u8 = 0x96;
pub const STX_ABS: u8 = 0x8e;
pub const STY_ZPG: u8 = 0x84;
pub const STY_ZPX: u8 = 0x94;
pub const STY_ABS: u8 = 0x8c;
pub const TAX_IMP: u8 = 0xaa;
pub const TAY_IMP: u8 = 0xa8;
pub const TSX_IMP: u8 = 0xba;
pub const TXA_IMP: u8 = 0x8a;
pub const TXS_IMP: u8 = 0x9a;
pub const TYA_IMP: u8 = 0x98;
pub const NOP_IP0: u8 = 0x1a;
pub const NOP_IP1: u8 = 0x3a;
pub const NOP_IP2: u8 = 0x5a;
pub const NOP_IP3: u8 = 0x7a;
pub const NOP_IP4: u8 = 0xda;
pub const NOP_IP5: u8 = 0xfa;
pub const NOP_IM0: u8 = 0x80;
pub const NOP_IM1: u8 = 0x82;
pub const NOP_IM2: u8 = 0x89;
pub const NOP_IM3: u8 = 0xc2;
pub const NOP_IM4: u8 = 0xe2;
pub const NOP_ZP0: u8 = 0x04;
pub const NOP_ZP1: u8 = 0x44;
pub const NOP_ZP2: u8 = 0x64;
pub const NOP_ZX0: u8 = 0x14;
pub const NOP_ZX1: u8 = 0x34;
pub const NOP_ZX2: u8 = 0x54;
pub const NOP_ZX3: u8 = 0x74;
pub const NOP_ZX4: u8 = 0xd4;
pub const NOP_ZX5: u8 = 0xf4;
pub const NOP_AB0: u8 = 0x0c;
pub const NOP_AX0: u8 = 0x1c;
pub const NOP_AX1: u8 = 0x3c;
pub const NOP_AX2: u8 = 0x5c;
pub const NOP_AX3: u8 = 0x7c;
pub const NOP_AX4: u8 = 0xdc;
pub const NOP_AX5: u8 = 0xfc;
pub const SLO_ZPG: u8 = 0x07;
pub const SLO_ZPX: u8 = 0x17;
pub const SLO_ABS: u8 = 0x0f;
pub const SLO_ABX: u8 = 0x1f;
pub const SLO_ABY: u8 = 0x1b;
pub const SLO_INX: u8 = 0x03;
pub const SLO_INY: u8 = 0x13;
pub const RLA_ZPG: u8 = 0x27;
pub const RLA_ZPX: u8 = 0x37;
pub const RLA_ABS: u8 = 0x2f;
pub const RLA_ABX: u8 = 0x3f;
pub const RLA_ABY: u8 = 0x3b;
pub const RLA_INX: u8 = 0x23;
pub const RLA_INY: u8 = 0x33;
pub const SRE_ZPG: u8 = 0x47;
pub const SRE_ZPX: u8 = 0x57;
pub const SRE_ABS: u8 = 0x4f;
pub const SRE_ABX: u8 = 0x5f;
pub const SRE_ABY: u8 = 0x5b;
pub const SRE_INX: u8 = 0x43;
pub const SRE_INY: u8 = 0x53;
pub const RRA_ZPG: u8 = 0x67;
pub const RRA_ZPX: u8 = 0x77;
pub const RRA_ABS: u8 = 0x6f;
pub const RRA_ABX: u8 = 0x7f;
pub const RRA_ABY: u8 = 0x7b;
pub const RRA_INX: u8 = 0x63;
pub const RRA_INY: u8 = 0x73;
pub const SAX_ZPG: u8 = 0x87;
pub const SAX_ZPY: u8 = 0x97;
pub const SAX_ABS: u8 = 0x8f;
pub const SAX_INX: u8 = 0x83;
pub const LAX_IMM: u8 = 0xab;
pub const LAX_ZPG: u8 = 0xa7;
pub const LAX_ZPY: u8 = 0xb7;
pub const LAX_ABS: u8 = 0xaf;
pub const LAX_ABY: u8 = 0xbf;
pub const LAX_INX: u8 = 0xa3;
pub const LAX_INY: u8 = 0xb3;
pub const DCP_ZPG: u8 = 0xc7;
pub const DCP_ZPX: u8 = 0xd7;
pub const DCP_ABS: u8 = 0xcf;
pub const DCP_ABX: u8 = 0xdf;
pub const DCP_ABY: u8 = 0xdb;
pub const DCP_INX: u8 = 0xc3;
pub const DCP_INY: u8 = 0xd3;
pub const ISB_ZPG: u8 = 0xe7;
pub const ISB_ZPX: u8 = 0xf7;
pub const ISB_ABS: u8 = 0xef;
pub const ISB_ABX: u8 = 0xff;
pub const ISB_ABY: u8 = 0xfb;
pub const ISB_INX: u8 = 0xe3;
pub const ISB_INY: u8 = 0xf3;
pub const SBC_IM0: u8 = 0xeb;

} // verus!
