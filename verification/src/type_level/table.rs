//! The operation impls of [`super::U`] for operands `0..=MAX_OPERAND`.
use vstd::prelude::*;
use super::{AssertLe, Max, Min, TypeAdd, TypeMul, TypeSub, U};

verus! {

impl TypeAdd<U<0>> for U<0> {
    type Output = U<0>;
    const VALUE: usize = 0;

    proof fn lemma_output() {
    }
}

impl TypeAdd<U<1>> for U<0> {
    type Output = U<1>;
    const VALUE: usize = 1;

    proof fn lemma_output() {
    }
}

impl TypeAdd<U<2>> for U<0> {
    type Output = U<2>;
    const VALUE: usize = 2;

    proof fn lemma_output() {
    }
}

impl TypeAdd<U<3>> for U<0> {
    type Output = U<3>;
    const VALUE: usize = 3;

    proof fn lemma_output() {
    }
}

impl TypeAdd<U<4>> for U<0> {
    type Output = U<4>;
    const VALUE: usize = 4;

    proof fn lemma_output() {
    }
}

impl TypeAdd<U<5>> for U<0> {
    type Output = U<5>;
    const VALUE: usize = 5;

    proof fn lemma_output() {
    }
}

impl TypeAdd<U<6>> for U<0> {
    type Output = U<6>;
    const VALUE: usize = 6;

    proof fn lemma_output() {
    }
}

impl TypeAdd<U<7>> for U<0> {
    type Output = U<7>;
    const VALUE: usize = 7;

    proof fn lemma_output() {
    }
}

impl TypeAdd<U<8>> for U<0> {
    type Output = U<8>;
    const VALUE: usize = 8;

    proof fn lemma_output() {
    }
}

impl TypeAdd<U<9>> for U<0> {
    type Output = U<9>;
    const VALUE: usize = 9;

    proof fn lemma_output() {
    }
}

impl TypeAdd<U<10>> for U<0> {
    type Output = U<10>;
    const VALUE: usize = 10;

    proof fn lemma_output() {
    }
}

impl TypeAdd<U<11>> for U<0> {
    type Output = U<11>;
    const VALUE: usize = 11;

    proof fn lemma_output() {
    }
}

impl TypeAdd<U<12>> for U<0> {
    type Output = U<12>;
    const VALUE: usize = 12;

    proof fn lemma_output() {
    }
}

impl TypeAdd<U<13>> for U<0> {
    type Output = U<13>;
    const VALUE: usize = 13;

    proof fn lemma_output() {
    }
}

impl TypeAdd<U<14>> for U<0> {
    type Output = U<14>;
    const VALUE: usize = 14;

    proof fn lemma_output() {
    }
}

impl TypeAdd<U<15>> for U<0> {
    type Output = U<15>;
    const VALUE: usize = 15;

    proof fn lemma_output() {
    }
}

impl TypeAdd<U<16>> for U<0> {
    type Output = U<16>;
    const VALUE: usize = 16;

    proof fn lemma_output() {
    }
}

impl TypeAdd<U<17>> for U<0> {
    type Output = U<17>;
    const VALUE: usize = 17;

    proof fn lemma_output() {
    }
}

impl TypeAdd<U<18>> for U<0> {
    type Output = U<18>;
    const VALUE: usize = 18;

    proof fn lemma_output() {
    }
}

impl TypeAdd<U<19>> for U<0> {
    type Output = U<19>;
    const VALUE: usize = 19;

    proof fn lemma_output() {
    }
}

impl TypeAdd<U<20>> for U<0> {
    type Output = U<20>;
    const VALUE: usize = 20;

    proof fn lemma_output() {
    }
}

impl TypeAdd<U<21>> for U<0> {
    type Output = U<21>;
    const VALUE: usize = 21;

    proof fn lemma_output() {
    }
}

impl TypeAdd<U<22>> for U<0> {
    type Output = U<22>;
    const VALUE: usize = 22;

    proof fn lemma_output() {
    }
}

impl TypeAdd<U<23>> for U<0> {
    type Output = U<23>;
    const VALUE: usize = 23;

    proof fn lemma_output() {
    }
}

impl TypeAdd<U<24>> for U<0> {
    type Output = U<24>;
    const VALUE: usize = 24;

    proof fn lemma_output() {
    }
}

impl TypeAdd<U<25>> for U<0> {
    type Output = U<25>;
    const VALUE: usize = 25;

    proof fn lemma_output() {
    }
}

impl TypeAdd<U<26>> for U<0> {
    type Output = U<26>;
    const VALUE: usize = 26;

    proof fn lemma_output() {
    }
}

impl TypeAdd<U<27>> for U<0> {
    type Output = U<27>;
    const VALUE: usize = 27;

    proof fn lemma_output() {
    }
}

impl TypeAdd<U<28>> for U<0> {
    type Output = U<28>;
    const VALUE: usize = 28;

    proof fn lemma_output() {
    }
}

impl TypeAdd<U<29>> for U<0> {
    type Output = U<29>;
    const VALUE: usize = 29;

    proof fn lemma_output() {
    }
}

impl TypeAdd<U<30>> for U<0> {
    type Output = U<30>;
    const VALUE: usize = 30;

    proof fn lemma_output() {
    }
}

impl TypeAdd<U<31>> for U<0> {
    type Output = U<31>;
    const VALUE: usize = 31;

    proof fn lemma_output() {
    }
}

impl TypeAdd<U<0>> for U<1> {
    type Output = U<1>;
    const VALUE: usize = 1;

    proof fn lemma_output() {
    }
}

impl TypeAdd<U<1>> for U<1> {
    type Output = U<2>;
    const VALUE: usize = 2;

    proof fn lemma_output() {
    }
}

impl TypeAdd<U<2>> for U<1> {
    type Output = U<3>;
    const VALUE: usize = 3;

    proof fn lemma_output() {
    }
}

impl TypeAdd<U<3>> for U<1> {
    type Output = U<4>;
    const VALUE: usize = 4;

    proof fn lemma_output() {
    }
}

impl TypeAdd<U<4>> for U<1> {
    type Output = U<5>;
    const VALUE: usize = 5;

    proof fn lemma_output() {
    }
}

impl TypeAdd<U<5>> for U<1> {
    type Output = U<6>;
    const VALUE: usize = 6;

    proof fn lemma_output() {
    }
}

impl TypeAdd<U<6>> for U<1> {
    type Output = U<7>;
    const VALUE: usize = 7;

    proof fn lemma_output() {
    }
}

impl TypeAdd<U<7>> for U<1> {
    type Output = U<8>;
    const VALUE: usize = 8;

    proof fn lemma_output() {
    }
}

impl TypeAdd<U<8>> for U<1> {
    type Output = U<9>;
    const VALUE: usize = 9;

    proof fn lemma_output() {
    }
}

impl TypeAdd<U<9>> for U<1> {
    type Output = U<10>;
    const VALUE: usize = 10;

    proof fn lemma_output() {
    }
}

impl TypeAdd<U<10>> for U<1> {
    type Output = U<11>;
    const VALUE: usize = 11;

    proof fn lemma_output() {
    }
}

impl TypeAdd<U<11>> for U<1> {
    type Output = U<12>;
    const VALUE: usize = 12;

    proof fn lemma_output() {
    }
}

impl TypeAdd<U<12>> for U<1> {
    type Output = U<13>;
    const VALUE: usize = 13;

    proof fn lemma_output() {
    }
}

impl TypeAdd<U<13>> for U<1> {
    type Output = U<14>;
    const VALUE: usize = 14;

    proof fn lemma_output() {
    }
}

impl TypeAdd<U<14>> for U<1> {
    type Output = U<15>;
    const VALUE: usize = 15;

    proof fn lemma_output() {
    }
}

impl TypeAdd<U<15>> for U<1> {
    type Output = U<16>;
    const VALUE: usize = 16;

    proof fn lemma_output() {
    }
}

impl TypeAdd<U<16>> for U<1> {
    type Output = U<17>;
    const VALUE: usize = 17;

    proof fn lemma_output() {
    }
}

impl TypeAdd<U<17>> for U<1> {
    type Output = U<18>;
    const VALUE: usize = 18;

    proof fn lemma_output() {
    }
}

impl TypeAdd<U<18>> for U<1> {
    type Output = U<19>;
    const VALUE: usize = 19;

    proof fn lemma_output() {
    }
}

impl TypeAdd<U<19>> for U<1> {
    type Output = U<20>;
    const VALUE: usize = 20;

    proof fn lemma_output() {
    }
}

impl TypeAdd<U<20>> for U<1> {
    type Output = U<21>;
    const VALUE: usize = 21;

    proof fn lemma_output() {
    }
}

impl TypeAdd<U<21>> for U<1> {
    type Output = U<22>;
    const VALUE: usize = 22;

    proof fn lemma_output() {
    }
}

impl TypeAdd<U<22>> for U<1> {
    type Output = U<23>;
    const VALUE: usize = 23;

    proof fn lemma_output() {
    }
}

impl TypeAdd<U<23>> for U<1> {
    type Output = U<24>;
    const VALUE: usize = 24;

    proof fn lemma_output() {
    }
}

impl TypeAdd<U<24>> for U<1> {
    type Output = U<25>;
    const VALUE: usize = 25;

    proof fn lemma_output() {
    }
}

impl TypeAdd<U<25>> for U<1> {
    type Output = U<26>;
    const VALUE: usize = 26;

    proof fn lemma_output() {
    }
}

impl TypeAdd<U<26>> for U<1> {
    type Output = U<27>;
    const VALUE: usize = 27;

    proof fn lemma_output() {
    }
}

impl TypeAdd<U<27>> for U<1> {
    type Output = U<28>;
    const VALUE: usize = 28;

    proof fn lemma_output() {
    }
}

impl TypeAdd<U<28>> for U<1> {
    type Output = U<29>;
    const VALUE: usize = 29;

    proof fn lemma_output() {
    }
}

impl TypeAdd<U<29>> for U<1> {
    type Output = U<30>;
    const VALUE: usize = 30;

    proof fn lemma_output() {
    }
}

impl TypeAdd<U<30>> for U<1> {
    type Output = U<31>;
    const VALUE: usize = 31;

    proof fn lemma_output() {
    }
}

impl TypeAdd<U<31>> for U<1> {
    type Output = U<32>;
    const VALUE: usize = 32;

    proof fn lemma_output() {
    }
}

impl TypeAdd<U<0>> for U<2> {
    type Output = U<2>;
    const VALUE: usize = 2;

    proof fn lemma_output() {
    }
}

impl TypeAdd<U<1>> for U<2> {
    type Output = U<3>;
    const VALUE: usize = 3;

    proof fn lemma_output() {
    }
}

impl TypeAdd<U<2>> for U<2> {
    type Output = U<4>;
    const VALUE: usize = 4;

    proof fn lemma_output() {
    }
}

impl TypeAdd<U<3>> for U<2> {
    type Output = U<5>;
    const VALUE: usize = 5;

    proof fn lemma_output() {
    }
}

impl TypeAdd<U<4>> for U<2> {
    type Output = U<6>;
    const VALUE: usize = 6;

    proof fn lemma_output() {
    }
}

impl TypeAdd<U<5>> for U<2> {
    type Output = U<7>;
    const VALUE: usize = 7;

    proof fn lemma_output() {
    }
}

impl TypeAdd<U<6>> for U<2> {
    type Output = U<8>;
    const VALUE: usize = 8;

    proof fn lemma_output() {
    }
}

impl TypeAdd<U<7>> for U<2> {
    type Output = U<9>;
    const VALUE: usize = 9;

    proof fn lemma_output() {
    }
}

impl TypeAdd<U<8>> for U<2> {
    type Output = U<10>;
    const VALUE: usize = 10;

    proof fn lemma_output() {
    }
}

impl TypeAdd<U<9>> for U<2> {
    type Output = U<11>;
    const VALUE: usize = 11;

    proof fn lemma_output() {
    }
}

impl TypeAdd<U<10>> for U<2> {
    type Output = U<12>;
    const VALUE: usize = 12;

    proof fn lemma_output() {
    }
}

impl TypeAdd<U<11>> for U<2> {
    type Output = U<13>;
    const VALUE: usize = 13;

    proof fn lemma_output() {
    }
}

impl TypeAdd<U<12>> for U<2> {
    type Output = U<14>;
    const VALUE: usize = 14;

    proof fn lemma_output() {
    }
}

impl TypeAdd<U<13>> for U<2> {
    type Output = U<15>;
    const VALUE: usize = 15;

    proof fn lemma_output() {
    }
}

impl TypeAdd<U<14>> for U<2> {
    type Output = U<16>;
    const VALUE: usize = 16;

    proof fn lemma_output() {
    }
}

impl TypeAdd<U<15>> for U<2> {
    type Output = U<17>;
    const VALUE: usize = 17;

    proof fn lemma_output() {
    }
}

impl TypeAdd<U<16>> for U<2> {
    type Output = U<18>;
    const VALUE: usize = 18;

    proof fn lemma_output() {
    }
}

impl TypeAdd<U<17>> for U<2> {
    type Output = U<19>;
    const VALUE: usize = 19;

    proof fn lemma_output() {
    }
}

impl TypeAdd<U<18>> for U<2> {
    type Output = U<20>;
    const VALUE: usize = 20;

    proof fn lemma_output() {
    }
}

impl TypeAdd<U<19>> for U<2> {
    type Output = U<21>;
    const VALUE: usize = 21;

    proof fn lemma_output() {
    }
}

impl TypeAdd<U<20>> for U<2> {
    type Output = U<22>;
    const VALUE: usize = 22;

    proof fn lemma_output() {
    }
}

impl TypeAdd<U<21>> for U<2> {
    type Output = U<23>;
    const VALUE: usize = 23;

    proof fn lemma_output() {
    }
}

impl TypeAdd<U<22>> for U<2> {
    type Output = U<24>;
    const VALUE: usize = 24;

    proof fn lemma_output() {
    }
}

impl TypeAdd<U<23>> for U<2> {
    type Output = U<25>;
    const VALUE: usize = 25;

    proof fn lemma_output() {
    }
}

impl TypeAdd<U<24>> for U<2> {
    type Output = U<26>;
    const VALUE: usize = 26;

    proof fn lemma_output() {
    }
}

impl TypeAdd<U<25>> for U<2> {
    type Output = U<27>;
    const VALUE: usize = 27;

    proof fn lemma_output() {
    }
}

impl TypeAdd<U<26>> for U<2> {
    type Output = U<28>;
    const VALUE: usize = 28;

    proof fn lemma_output() {
    }
}

impl TypeAdd<U<27>> for U<2> {
    type Output = U<29>;
    const VALUE: usize = 29;

    proof fn lemma_output() {
    }
}

impl TypeAdd<U<28>> for U<2> {
    type Output = U<30>;
    const VALUE: usize = 30;

    proof fn lemma_output() {
    }
}

impl TypeAdd<U<29>> for U<2> {
    type Output = U<31>;
    const VALUE: usize = 31;

    proof fn lemma_output() {
    }
}

impl TypeAdd<U<30>> for U<2> {
    type Output = U<32>;
    const VALUE: usize = 32;

    proof fn lemma_output() {
    }
}

impl TypeAdd<U<31>> for U<2> {
    type Output = U<33>;
    const VALUE: usize = 33;

    proof fn lemma_output() {
    }
}

impl TypeAdd<U<0>> for U<3> {
    type Output = U<3>;
    const VALUE: usize = 3;

    proof fn lemma_output() {
    }
}

impl TypeAdd<U<1>> for U<3> {
    type Output = U<4>;
    const VALUE: usize = 4;

    proof fn lemma_output() {
    }
}

impl TypeAdd<U<2>> for U<3> {
    type Output = U<5>;
    const VALUE: usize = 5;

    proof fn lemma_output() {
    }
}

impl TypeAdd<U<3>> for U<3> {
    type Output = U<6>;
    const VALUE: usize = 6;

    proof fn lemma_output() {
    }
}

impl TypeAdd<U<4>> for U<3> {
    type Output = U<7>;
    const VALUE: usize = 7;

    proof fn lemma_output() {
    }
}

impl TypeAdd<U<5>> for U<3> {
    type Output = U<8>;
    const VALUE: usize = 8;

    proof fn lemma_output() {
    }
}

impl TypeAdd<U<6>> for U<3> {
    type Output = U<9>;
    const VALUE: usize = 9;

    proof fn lemma_output() {
    }
}

impl TypeAdd<U<7>> for U<3> {
    type Output = U<10>;
    const VALUE: usize = 10;

    proof fn lemma_output() {
    }
}

impl TypeAdd<U<8>> for U<3> {
    type Output = U<11>;
    const VALUE: usize = 11;

    proof fn lemma_output() {
    }
}

impl TypeAdd<U<9>> for U<3> {
    type Output = U<12>;
    const VALUE: usize = 12;

    proof fn lemma_output() {
    }
}

impl TypeAdd<U<10>> for U<3> {
    type Output = U<13>;
    const VALUE: usize = 13;

    proof fn lemma_output() {
    }
}

impl TypeAdd<U<11>> for U<3> {
    type Output = U<14>;
    const VALUE: usize = 14;

    proof fn lemma_output() {
    }
}

impl TypeAdd<U<12>> for U<3> {
    type Output = U<15>;
    const VALUE: usize = 15;

    proof fn lemma_output() {
    }
}

impl TypeAdd<U<13>> for U<3> {
    type Output = U<16>;
    const VALUE: usize = 16;

    proof fn lemma_output() {
    }
}

impl TypeAdd<U<14>> for U<3> {
    type Output = U<17>;
    const VALUE: usize = 17;

    proof fn lemma_output() {
    }
}

impl TypeAdd<U<15>> for U<3> {
    type Output = U<18>;
    const VALUE: usize = 18;

    proof fn lemma_output() {
    }
}

impl TypeAdd<U<16>> for U<3> {
    type Output = U<19>;
    const VALUE: usize = 19;

    proof fn lemma_output() {
    }
}

impl TypeAdd<U<17>> for U<3> {
    type Output = U<20>;
    const VALUE: usize = 20;

    proof fn lemma_output() {
    }
}

impl TypeAdd<U<18>> for U<3> {
    type Output = U<21>;
    const VALUE: usize = 21;

    proof fn lemma_output() {
    }
}

impl TypeAdd<U<19>> for U<3> {
    type Output = U<22>;
    const VALUE: usize = 22;

    proof fn lemma_output() {
    }
}

impl TypeAdd<U<20>> for U<3> {
    type Output = U<23>;
    const VALUE: usize = 23;

    proof fn lemma_output() {
    }
}

impl TypeAdd<U<21>> for U<3> {
    type Output = U<24>;
    const VALUE: usize = 24;

    proof fn lemma_output() {
    }
}

impl TypeAdd<U<22>> for U<3> {
    type Output = U<25>;
    const VALUE: usize = 25;

    proof fn lemma_output() {
    }
}

impl TypeAdd<U<23>> for U<3> {
    type Output = U<26>;
    const VALUE: usize = 26;

    proof fn lemma_output() {
    }
}

impl TypeAdd<U<24>> for U<3> {
    type Output = U<27>;
    const VALUE: usize = 27;

    proof fn lemma_output() {
    }
}

impl TypeAdd<U<25>> for U<3> {
    type Output = U<28>;
    const VALUE: usize = 28;

    proof fn lemma_output() {
    }
}

impl TypeAdd<U<26>> for U<3> {
    type Output = U<29>;
    const VALUE: usize = 29;

    proof fn lemma_output() {
    }
}

impl TypeAdd<U<27>> for U<3> {
    type Output = U<30>;
    const VALUE: usize = 30;

    proof fn lemma_output() {
    }
}

impl TypeAdd<U<28>> for U<3> {
    type Output = U<31>;
    const VALUE: usize = 31;

    proof fn lemma_output() {
    }
}

impl TypeAdd<U<29>> for U<3> {
    type Output = U<32>;
    const VALUE: usize = 32;

    proof fn lemma_output() {
    }
}

impl TypeAdd<U<30>> for U<3> {
    type Output = U<33>;
    const VALUE: usize = 33;

    proof fn lemma_output() {
    }
}

impl TypeAdd<U<31>> for U<3> {
    type Output = U<34>;
    const VALUE: usize = 34;

    proof fn lemma_output() {
    }
}

impl TypeAdd<U<0>> for U<4> {
    type Output = U<4>;
    const VALUE: usize = 4;

    proof fn lemma_output() {
    }
}

impl TypeAdd<U<1>> for U<4> {
    type Output = U<5>;
    const VALUE: usize = 5;

    proof fn lemma_output() {
    }
}

impl TypeAdd<U<2>> for U<4> {
    type Output = U<6>;
    const VALUE: usize = 6;

    proof fn lemma_output() {
    }
}

impl TypeAdd<U<3>> for U<4> {
    type Output = U<7>;
    const VALUE: usize = 7;

    proof fn lemma_output() {
    }
}

impl TypeAdd<U<4>> for U<4> {
    type Output = U<8>;
    const VALUE: usize = 8;

    proof fn lemma_output() {
    }
}

impl TypeAdd<U<5>> for U<4> {
    type Output = U<9>;
    const VALUE: usize = 9;

    proof fn lemma_output() {
    }
}

impl TypeAdd<U<6>> for U<4> {
    type Output = U<10>;
    const VALUE: usize = 10;

    proof fn lemma_output() {
    }
}

impl TypeAdd<U<7>> for U<4> {
    type Output = U<11>;
    const VALUE: usize = 11;

    proof fn lemma_output() {
    }
}

impl TypeAdd<U<8>> for U<4> {
    type Output = U<12>;
    const VALUE: usize = 12;

    proof fn lemma_output() {
    }
}

impl TypeAdd<U<9>> for U<4> {
    type Output = U<13>;
    const VALUE: usize = 13;

    proof fn lemma_output() {
    }
}

impl TypeAdd<U<10>> for U<4> {
    type Output = U<14>;
    const VALUE: usize = 14;

    proof fn lemma_output() {
    }
}

impl TypeAdd<U<11>> for U<4> {
    type Output = U<15>;
    const VALUE: usize = 15;

    proof fn lemma_output() {
    }
}

impl TypeAdd<U<12>> for U<4> {
    type Output = U<16>;
    const VALUE: usize = 16;

    proof fn lemma_output() {
    }
}

impl TypeAdd<U<13>> for U<4> {
    type Output = U<17>;
    const VALUE: usize = 17;

    proof fn lemma_output() {
    }
}

impl TypeAdd<U<14>> for U<4> {
    type Output = U<18>;
    const VALUE: usize = 18;

    proof fn lemma_output() {
    }
}

impl TypeAdd<U<15>> for U<4> {
    type Output = U<19>;
    const VALUE: usize = 19;

    proof fn lemma_output() {
    }
}

impl TypeAdd<U<16>> for U<4> {
    type Output = U<20>;
    const VALUE: usize = 20;

    proof fn lemma_output() {
    }
}

impl TypeAdd<U<17>> for U<4> {
    type Output = U<21>;
    const VALUE: usize = 21;

    proof fn lemma_output() {
    }
}

impl TypeAdd<U<18>> for U<4> {
    type Output = U<22>;
    const VALUE: usize = 22;

    proof fn lemma_output() {
    }
}

impl TypeAdd<U<19>> for U<4> {
    type Output = U<23>;
    const VALUE: usize = 23;

    proof fn lemma_output() {
    }
}

impl TypeAdd<U<20>> for U<4> {
    type Output = U<24>;
    const VALUE: usize = 24;

    proof fn lemma_output() {
    }
}

impl TypeAdd<U<21>> for U<4> {
    type Output = U<25>;
    const VALUE: usize = 25;

    proof fn lemma_output() {
    }
}

impl TypeAdd<U<22>> for U<4> {
    type Output = U<26>;
    const VALUE: usize = 26;

    proof fn lemma_output() {
    }
}

impl TypeAdd<U<23>> for U<4> {
    type Output = U<27>;
    const VALUE: usize = 27;

    proof fn lemma_output() {
    }
}

impl TypeAdd<U<24>> for U<4> {
    type Output = U<28>;
    const VALUE: usize = 28;

    proof fn lemma_output() {
    }
}

impl TypeAdd<U<25>> for U<4> {
    type Output = U<29>;
    const VALUE: usize = 29;

    proof fn lemma_output() {
    }
}

impl TypeAdd<U<26>> for U<4> {
    type Output = U<30>;
    const VALUE: usize = 30;

    proof fn lemma_output() {
    }
}

impl TypeAdd<U<27>> for U<4> {
    type Output = U<31>;
    const VALUE: usize = 31;

    proof fn lemma_output() {
    }
}

impl TypeAdd<U<28>> for U<4> {
    type Output = U<32>;
    const VALUE: usize = 32;

    proof fn lemma_output() {
    }
}

impl TypeAdd<U<29>> for U<4> {
    type Output = U<33>;
    const VALUE: usize = 33;

    proof fn lemma_output() {
    }
}

impl TypeAdd<U<30>> for U<4> {
    type Output = U<34>;
    const VALUE: usize = 34;

    proof fn lemma_output() {
    }
}

impl TypeAdd<U<31>> for U<4> {
    type Output = U<35>;
    const VALUE: usize = 35;

    proof fn lemma_output() {
    }
}

impl TypeAdd<U<0>> for U<5> {
    type Output = U<5>;
    const VALUE: usize = 5;

    proof fn lemma_output() {
    }
}

impl TypeAdd<U<1>> for U<5> {
    type Output = U<6>;
    const VALUE: usize = 6;

    proof fn lemma_output() {
    }
}

impl TypeAdd<U<2>> for U<5> {
    type Output = U<7>;
    const VALUE: usize = 7;

    proof fn lemma_output() {
    }
}

impl TypeAdd<U<3>> for U<5> {
    type Output = U<8>;
    const VALUE: usize = 8;

    proof fn lemma_output() {
    }
}

impl TypeAdd<U<4>> for U<5> {
    type Output = U<9>;
    const VALUE: usize = 9;

    proof fn lemma_output() {
    }
}

impl TypeAdd<U<5>> for U<5> {
    type Output = U<10>;
    const VALUE: usize = 10;

    proof fn lemma_output() {
    }
}

impl TypeAdd<U<6>> for U<5> {
    type Output = U<11>;
    const VALUE: usize = 11;

    proof fn lemma_output() {
    }
}

impl TypeAdd<U<7>> for U<5> {
    type Output = U<12>;
    const VALUE: usize = 12;

    proof fn lemma_output() {
    }
}

impl TypeAdd<U<8>> for U<5> {
    type Output = U<13>;
    const VALUE: usize = 13;

    proof fn lemma_output() {
    }
}

impl TypeAdd<U<9>> for U<5> {
    type Output = U<14>;
    const VALUE: usize = 14;

    proof fn lemma_output() {
    }
}

impl TypeAdd<U<10>> for U<5> {
    type Output = U<15>;
    const VALUE: usize = 15;

    proof fn lemma_output() {
    }
}

impl TypeAdd<U<11>> for U<5> {
    type Output = U<16>;
    const VALUE: usize = 16;

    proof fn lemma_output() {
    }
}

impl TypeAdd<U<12>> for U<5> {
    type Output = U<17>;
    const VALUE: usize = 17;

    proof fn lemma_output() {
    }
}

impl TypeAdd<U<13>> for U<5> {
    type Output = U<18>;
    const VALUE: usize = 18;

    proof fn lemma_output() {
    }
}

impl TypeAdd<U<14>> for U<5> {
    type Output = U<19>;
    const VALUE: usize = 19;

    proof fn lemma_output() {
    }
}

impl TypeAdd<U<15>> for U<5> {
    type Output = U<20>;
    const VALUE: usize = 20;

    proof fn lemma_output() {
    }
}

impl TypeAdd<U<16>> for U<5> {
    type Output = U<21>;
    const VALUE: usize = 21;

    proof fn lemma_output() {
    }
}

impl TypeAdd<U<17>> for U<5> {
    type Output = U<22>;
    const VALUE: usize = 22;

    proof fn lemma_output() {
    }
}

impl TypeAdd<U<18>> for U<5> {
    type Output = U<23>;
    const VALUE: usize = 23;

    proof fn lemma_output() {
    }
}

impl TypeAdd<U<19>> for U<5> {
    type Output = U<24>;
    const VALUE: usize = 24;

    proof fn lemma_output() {
    }
}

impl TypeAdd<U<20>> for U<5> {
    type Output = U<25>;
    const VALUE: usize = 25;

    proof fn lemma_output() {
    }
}

impl TypeAdd<U<21>> for U<5> {
    type Output = U<26>;
    const VALUE: usize = 26;

    proof fn lemma_output() {
    }
}

impl TypeAdd<U<22>> for U<5> {
    type Output = U<27>;
    const VALUE: usize = 27;

    proof fn lemma_output() {
    }
}

impl TypeAdd<U<23>> for U<5> {
    type Output = U<28>;
    const VALUE: usize = 28;

    proof fn lemma_output() {
    }
}

impl TypeAdd<U<24>> for U<5> {
    type Output = U<29>;
    const VALUE: usize = 29;

    proof fn lemma_output() {
    }
}

impl TypeAdd<U<25>> for U<5> {
    type Output = U<30>;
    const VALUE: usize = 30;

    proof fn lemma_output() {
    }
}

impl TypeAdd<U<26>> for U<5> {
    type Output = U<31>;
    const VALUE: usize = 31;

    proof fn lemma_output() {
    }
}

impl TypeAdd<U<27>> for U<5> {
    type Output = U<32>;
    const VALUE: usize = 32;

    proof fn lemma_output() {
    }
}

impl TypeAdd<U<28>> for U<5> {
    type Output = U<33>;
    const VALUE: usize = 33;

    proof fn lemma_output() {
    }
}

impl TypeAdd<U<29>> for U<5> {
    type Output = U<34>;
    const VALUE: usize = 34;

    proof fn lemma_output() {
    }
}

impl TypeAdd<U<30>> for U<5> {
    type Output = U<35>;
    const VALUE: usize = 35;

    proof fn lemma_output() {
    }
}

impl TypeAdd<U<31>> for U<5> {
    type Output = U<36>;
    const VALUE: usize = 36;

    proof fn lemma_output() {
    }
}

impl TypeAdd<U<0>> for U<6> {
    type Output = U<6>;
    const VALUE: usize = 6;

    proof fn lemma_output() {
    }
}

impl TypeAdd<U<1>> for U<6> {
    type Output = U<7>;
    const VALUE: usize = 7;

    proof fn lemma_output() {
    }
}

impl TypeAdd<U<2>> for U<6> {
    type Output = U<8>;
    const VALUE: usize = 8;

    proof fn lemma_output() {
    }
}

impl TypeAdd<U<3>> for U<6> {
    type Output = U<9>;
    const VALUE: usize = 9;

    proof fn lemma_output() {
    }
}

impl TypeAdd<U<4>> for U<6> {
    type Output = U<10>;
    const VALUE: usize = 10;

    proof fn lemma_output() {
    }
}

impl TypeAdd<U<5>> for U<6> {
    type Output = U<11>;
    const VALUE: usize = 11;

    proof fn lemma_output() {
    }
}

impl TypeAdd<U<6>> for U<6> {
    type Output = U<12>;
    const VALUE: usize = 12;

    proof fn lemma_output() {
    }
}

impl TypeAdd<U<7>> for U<6> {
    type Output = U<13>;
    const VALUE: usize = 13;

    proof fn lemma_output() {
    }
}

impl TypeAdd<U<8>> for U<6> {
    type Output = U<14>;
    const VALUE: usize = 14;

    proof fn lemma_output() {
    }
}

impl TypeAdd<U<9>> for U<6> {
    type Output = U<15>;
    const VALUE: usize = 15;

    proof fn lemma_output() {
    }
}

impl TypeAdd<U<10>> for U<6> {
    type Output = U<16>;
    const VALUE: usize = 16;

    proof fn lemma_output() {
    }
}

impl TypeAdd<U<11>> for U<6> {
    type Output = U<17>;
    const VALUE: usize = 17;

    proof fn lemma_output() {
    }
}

impl TypeAdd<U<12>> for U<6> {
    type Output = U<18>;
    const VALUE: usize = 18;

    proof fn lemma_output() {
    }
}

impl TypeAdd<U<13>> for U<6> {
    type Output = U<19>;
    const VALUE: usize = 19;

    proof fn lemma_output() {
    }
}

impl TypeAdd<U<14>> for U<6> {
    type Output = U<20>;
    const VALUE: usize = 20;

    proof fn lemma_output() {
    }
}

impl TypeAdd<U<15>> for U<6> {
    type Output = U<21>;
    const VALUE: usize = 21;

    proof fn lemma_output() {
    }
}

impl TypeAdd<U<16>> for U<6> {
    type Output = U<22>;
    const VALUE: usize = 22;

    proof fn lemma_output() {
    }
}

impl TypeAdd<U<17>> for U<6> {
    type Output = U<23>;
    const VALUE: usize = 23;

    proof fn lemma_output() {
    }
}

impl TypeAdd<U<18>> for U<6> {
    type Output = U<24>;
    const VALUE: usize = 24;

    proof fn lemma_output() {
    }
}

impl TypeAdd<U<19>> for U<6> {
    type Output = U<25>;
    const VALUE: usize = 25;

    proof fn lemma_output() {
    }
}

impl TypeAdd<U<20>> for U<6> {
    type Output = U<26>;
    const VALUE: usize = 26;

    proof fn lemma_output() {
    }
}

impl TypeAdd<U<21>> for U<6> {
    type Output = U<27>;
    const VALUE: usize = 27;

    proof fn lemma_output() {
    }
}

impl TypeAdd<U<22>> for U<6> {
    type Output = U<28>;
    const VALUE: usize = 28;

    proof fn lemma_output() {
    }
}

impl TypeAdd<U<23>> for U<6> {
    type Output = U<29>;
    const VALUE: usize = 29;

    proof fn lemma_output() {
    }
}

impl TypeAdd<U<24>> for U<6> {
    type Output = U<30>;
    const VALUE: usize = 30;

    proof fn lemma_output() {
    }
}

impl TypeAdd<U<25>> for U<6> {
    type Output = U<31>;
    const VALUE: usize = 31;

    proof fn lemma_output() {
    }
}

impl TypeAdd<U<26>> for U<6> {
    type Output = U<32>;
    const VALUE: usize = 32;

    proof fn lemma_output() {
    }
}

impl TypeAdd<U<27>> for U<6> {
    type Output = U<33>;
    const VALUE: usize = 33;

    proof fn lemma_output() {
    }
}

impl TypeAdd<U<28>> for U<6> {
    type Output = U<34>;
    const VALUE: usize = 34;

    proof fn lemma_output() {
    }
}

impl TypeAdd<U<29>> for U<6> {
    type Output = U<35>;
    const VALUE: usize = 35;

    proof fn lemma_output() {
    }
}

impl TypeAdd<U<30>> for U<6> {
    type Output = U<36>;
    const VALUE: usize = 36;

    proof fn lemma_output() {
    }
}

impl TypeAdd<U<31>> for U<6> {
    type Output = U<37>;
    const VALUE: usize = 37;

    proof fn lemma_output() {
    }
}

impl TypeAdd<U<0>> for U<7> {
    type Output = U<7>;
    const VALUE: usize = 7;

    proof fn lemma_output() {
    }
}

impl TypeAdd<U<1>> for U<7> {
    type Output = U<8>;
    const VALUE: usize = 8;

    proof fn lemma_output() {
    }
}

impl TypeAdd<U<2>> for U<7> {
    type Output = U<9>;
    const VALUE: usize = 9;

    proof fn lemma_output() {
    }
}

impl TypeAdd<U<3>> for U<7> {
    type Output = U<10>;
    const VALUE: usize = 10;

    proof fn lemma_output() {
    }
}

impl TypeAdd<U<4>> for U<7> {
    type Output = U<11>;
    const VALUE: usize = 11;

    proof fn lemma_output() {
    }
}

impl TypeAdd<U<5>> for U<7> {
    type Output = U<12>;
    const VALUE: usize = 12;

    proof fn lemma_output() {
    }
}

impl TypeAdd<U<6>> for U<7> {
    type Output = U<13>;
    const VALUE: usize = 13;

    proof fn lemma_output() {
    }
}

impl TypeAdd<U<7>> for U<7> {
    type Output = U<14>;
    const VALUE: usize = 14;

    proof fn lemma_output() {
    }
}

impl TypeAdd<U<8>> for U<7> {
    type Output = U<15>;
    const VALUE: usize = 15;

    proof fn lemma_output() {
    }
}

impl TypeAdd<U<9>> for U<7> {
    type Output = U<16>;
    const VALUE: usize = 16;

    proof fn lemma_output() {
    }
}

impl TypeAdd<U<10>> for U<7> {
    type Output = U<17>;
    const VALUE: usize = 17;

    proof fn lemma_output() {
    }
}

impl TypeAdd<U<11>> for U<7> {
    type Output = U<18>;
    const VALUE: usize = 18;

    proof fn lemma_output() {
    }
}

impl TypeAdd<U<12>> for U<7> {
    type Output = U<19>;
    const VALUE: usize = 19;

    proof fn lemma_output() {
    }
}

impl TypeAdd<U<13>> for U<7> {
    type Output = U<20>;
    const VALUE: usize = 20;

    proof fn lemma_output() {
    }
}

impl TypeAdd<U<14>> for U<7> {
    type Output = U<21>;
    const VALUE: usize = 21;

    proof fn lemma_output() {
    }
}

impl TypeAdd<U<15>> for U<7> {
    type Output = U<22>;
    const VALUE: usize = 22;

    proof fn lemma_output() {
    }
}

impl TypeAdd<U<16>> for U<7> {
    type Output = U<23>;
    const VALUE: usize = 23;

    proof fn lemma_output() {
    }
}

impl TypeAdd<U<17>> for U<7> {
    type Output = U<24>;
    const VALUE: usize = 24;

    proof fn lemma_output() {
    }
}

impl TypeAdd<U<18>> for U<7> {
    type Output = U<25>;
    const VALUE: usize = 25;

    proof fn lemma_output() {
    }
}

impl TypeAdd<U<19>> for U<7> {
    type Output = U<26>;
    const VALUE: usize = 26;

    proof fn lemma_output() {
    }
}

impl TypeAdd<U<20>> for U<7> {
    type Output = U<27>;
    const VALUE: usize = 27;

    proof fn lemma_output() {
    }
}

impl TypeAdd<U<21>> for U<7> {
    type Output = U<28>;
    const VALUE: usize = 28;

    proof fn lemma_output() {
    }
}

impl TypeAdd<U<22>> for U<7> {
    type Output = U<29>;
    const VALUE: usize = 29;

    proof fn lemma_output() {
    }
}

impl TypeAdd<U<23>> for U<7> {
    type Output = U<30>;
    const VALUE: usize = 30;

    proof fn lemma_output() {
    }
}

impl TypeAdd<U<24>> for U<7> {
    type Output = U<31>;
    const VALUE: usize = 31;

    proof fn lemma_output() {
    }
}

impl TypeAdd<U<25>> for U<7> {
    type Output = U<32>;
    const VALUE: usize = 32;

    proof fn lemma_output() {
    }
}

impl TypeAdd<U<26>> for U<7> {
    type Output = U<33>;
    const VALUE: usize = 33;

    proof fn lemma_output() {
    }
}

impl TypeAdd<U<27>> for U<7> {
    type Output = U<34>;
    const VALUE: usize = 34;

    proof fn lemma_output() {
    }
}

impl TypeAdd<U<28>> for U<7> {
    type Output = U<35>;
    const VALUE: usize = 35;

    proof fn lemma_output() {
    }
}

impl TypeAdd<U<29>> for U<7> {
    type Output = U<36>;
    const VALUE: usize = 36;

    proof fn lemma_output() {
    }
}

impl TypeAdd<U<30>> for U<7> {
    type Output = U<37>;
    const VALUE: usize = 37;

    proof fn lemma_output() {
    }
}

impl TypeAdd<U<31>> for U<7> {
    type Output = U<38>;
    const VALUE: usize = 38;

    proof fn lemma_output() {
    }
}

impl TypeAdd<U<0>> for U<8> {
    type Output = U<8>;
    const VALUE: usize = 8;

    proof fn lemma_output() {
    }
}

impl TypeAdd<U<1>> for U<8> {
    type Output = U<9>;
    const VALUE: usize = 9;

    proof fn lemma_output() {
    }
}

impl TypeAdd<U<2>> for U<8> {
    type Output = U<10>;
    const VALUE: usize = 10;

    proof fn lemma_output() {
    }
}

impl TypeAdd<U<3>> for U<8> {
    type Output = U<11>;
    const VALUE: usize = 11;

    proof fn lemma_output() {
    }
}

impl TypeAdd<U<4>> for U<8> {
    type Output = U<12>;
    const VALUE: usize = 12;

    proof fn lemma_output() {
    }
}

impl TypeAdd<U<5>> for U<8> {
    type Output = U<13>;
    const VALUE: usize = 13;

    proof fn lemma_output() {
    }
}

impl TypeAdd<U<6>> for U<8> {
    type Output = U<14>;
    const VALUE: usize = 14;

    proof fn lemma_output() {
    }
}

impl TypeAdd<U<7>> for U<8> {
    type Output = U<15>;
    const VALUE: usize = 15;

    proof fn lemma_output() {
    }
}

impl TypeAdd<U<8>> for U<8> {
    type Output = U<16>;
    const VALUE: usize = 16;

    proof fn lemma_output() {
    }
}

impl TypeAdd<U<9>> for U<8> {
    type Output = U<17>;
    const VALUE: usize = 17;

    proof fn lemma_output() {
    }
}

impl TypeAdd<U<10>> for U<8> {
    type Output = U<18>;
    const VALUE: usize = 18;

    proof fn lemma_output() {
    }
}

impl TypeAdd<U<11>> for U<8> {
    type Output = U<19>;
    const VALUE: usize = 19;

    proof fn lemma_output() {
    }
}

impl TypeAdd<U<12>> for U<8> {
    type Output = U<20>;
    const VALUE: usize = 20;

    proof fn lemma_output() {
    }
}

impl TypeAdd<U<13>> for U<8> {
    type Output = U<21>;
    const VALUE: usize = 21;

    proof fn lemma_output() {
    }
}

impl TypeAdd<U<14>> for U<8> {
    type Output = U<22>;
    const VALUE: usize = 22;

    proof fn lemma_output() {
    }
}

impl TypeAdd<U<15>> for U<8> {
    type Output = U<23>;
    const VALUE: usize = 23;

    proof fn lemma_output() {
    }
}

impl TypeAdd<U<16>> for U<8> {
    type Output = U<24>;
    const VALUE: usize = 24;

    proof fn lemma_output() {
    }
}

impl TypeAdd<U<17>> for U<8> {
    type Output = U<25>;
    const VALUE: usize = 25;

    proof fn lemma_output() {
    }
}

impl TypeAdd<U<18>> for U<8> {
    type Output = U<26>;
    const VALUE: usize = 26;

    proof fn lemma_output() {
    }
}

impl TypeAdd<U<19>> for U<8> {
    type Output = U<27>;
    const VALUE: usize = 27;

    proof fn lemma_output() {
    }
}

impl TypeAdd<U<20>> for U<8> {
    type Output = U<28>;
    const VALUE: usize = 28;

    proof fn lemma_output() {
    }
}

impl TypeAdd<U<21>> for U<8> {
    type Output = U<29>;
    const VALUE: usize = 29;

    proof fn lemma_output() {
    }
}

impl TypeAdd<U<22>> for U<8> {
    type Output = U<30>;
    const VALUE: usize = 30;

    proof fn lemma_output() {
    }
}

impl TypeAdd<U<23>> for U<8> {
    type Output = U<31>;
    const VALUE: usize = 31;

    proof fn lemma_output() {
    }
}

impl TypeAdd<U<24>> for U<8> {
    type Output = U<32>;
    const VALUE: usize = 32;

    proof fn lemma_output() {
    }
}

impl TypeAdd<U<25>> for U<8> {
    type Output = U<33>;
    const VALUE: usize = 33;

    proof fn lemma_output() {
    }
}

impl TypeAdd<U<26>> for U<8> {
    type Output = U<34>;
    const VALUE: usize = 34;

    proof fn lemma_output() {
    }
}

impl TypeAdd<U<27>> for U<8> {
    type Output = U<35>;
    const VALUE: usize = 35;

    proof fn lemma_output() {
    }
}

impl TypeAdd<U<28>> for U<8> {
    type Output = U<36>;
    const VALUE: usize = 36;

    proof fn lemma_output() {
    }
}

impl TypeAdd<U<29>> for U<8> {
    type Output = U<37>;
    const VALUE: usize = 37;

    proof fn lemma_output() {
    }
}

impl TypeAdd<U<30>> for U<8> {
    type Output = U<38>;
    const VALUE: usize = 38;

    proof fn lemma_output() {
    }
}

impl TypeAdd<U<31>> for U<8> {
    type Output = U<39>;
    const VALUE: usize = 39;

    proof fn lemma_output() {
    }
}

impl TypeAdd<U<0>> for U<9> {
    type Output = U<9>;
    const VALUE: usize = 9;

    proof fn lemma_output() {
    }
}

impl TypeAdd<U<1>> for U<9> {
    type Output = U<10>;
    const VALUE: usize = 10;

    proof fn lemma_output() {
    }
}

impl TypeAdd<U<2>> for U<9> {
    type Output = U<11>;
    const VALUE: usize = 11;

    proof fn lemma_output() {
    }
}

impl TypeAdd<U<3>> for U<9> {
    type Output = U<12>;
    const VALUE: usize = 12;

    proof fn lemma_output() {
    }
}

impl TypeAdd<U<4>> for U<9> {
    type Output = U<13>;
    const VALUE: usize = 13;

    proof fn lemma_output() {
    }
}

impl TypeAdd<U<5>> for U<9> {
    type Output = U<14>;
    const VALUE: usize = 14;

    proof fn lemma_output() {
    }
}

impl TypeAdd<U<6>> for U<9> {
    type Output = U<15>;
    const VALUE: usize = 15;

    proof fn lemma_output() {
    }
}

impl TypeAdd<U<7>> for U<9> {
    type Output = U<16>;
    const VALUE: usize = 16;

    proof fn lemma_output() {
    }
}

impl TypeAdd<U<8>> for U<9> {
    type Output = U<17>;
    const VALUE: usize = 17;

    proof fn lemma_output() {
    }
}

impl TypeAdd<U<9>> for U<9> {
    type Output = U<18>;
    const VALUE: usize = 18;

    proof fn lemma_output() {
    }
}

impl TypeAdd<U<10>> for U<9> {
    type Output = U<19>;
    const VALUE: usize = 19;

    proof fn lemma_output() {
    }
}

impl TypeAdd<U<11>> for U<9> {
    type Output = U<20>;
    const VALUE: usize = 20;

    proof fn lemma_output() {
    }
}

impl TypeAdd<U<12>> for U<9> {
    type Output = U<21>;
    const VALUE: usize = 21;

    proof fn lemma_output() {
    }
}

impl TypeAdd<U<13>> for U<9> {
    type Output = U<22>;
    const VALUE: usize = 22;

    proof fn lemma_output() {
    }
}

impl TypeAdd<U<14>> for U<9> {
    type Output = U<23>;
    const VALUE: usize = 23;

    proof fn lemma_output() {
    }
}

impl TypeAdd<U<15>> for U<9> {
    type Output = U<24>;
    const VALUE: usize = 24;

    proof fn lemma_output() {
    }
}

impl TypeAdd<U<16>> for U<9> {
    type Output = U<25>;
    const VALUE: usize = 25;

    proof fn lemma_output() {
    }
}

impl TypeAdd<U<17>> for U<9> {
    type Output = U<26>;
    const VALUE: usize = 26;

    proof fn lemma_output() {
    }
}

impl TypeAdd<U<18>> for U<9> {
    type Output = U<27>;
    const VALUE: usize = 27;

    proof fn lemma_output() {
    }
}

impl TypeAdd<U<19>> for U<9> {
    type Output = U<28>;
    const VALUE: usize = 28;

    proof fn lemma_output() {
    }
}

impl TypeAdd<U<20>> for U<9> {
    type Output = U<29>;
    const VALUE: usize = 29;

    proof fn lemma_output() {
    }
}

impl TypeAdd<U<21>> for U<9> {
    type Output = U<30>;
    const VALUE: usize = 30;

    proof fn lemma_output() {
    }
}

impl TypeAdd<U<22>> for U<9> {
    type Output = U<31>;
    const VALUE: usize = 31;

    proof fn lemma_output() {
    }
}

impl TypeAdd<U<23>> for U<9> {
    type Output = U<32>;
    const VALUE: usize = 32;

    proof fn lemma_output() {
    }
}

impl TypeAdd<U<24>> for U<9> {
    type Output = U<33>;
    const VALUE: usize = 33;

    proof fn lemma_output() {
    }
}

impl TypeAdd<U<25>> for U<9> {
    type Output = U<34>;
    const VALUE: usize = 34;

    proof fn lemma_output() {
    }
}

impl TypeAdd<U<26>> for U<9> {
    type Output = U<35>;
    const VALUE: usize = 35;

    proof fn lemma_output() {
    }
}

impl TypeAdd<U<27>> for U<9> {
    type Output = U<36>;
    const VALUE: usize = 36;

    proof fn lemma_output() {
    }
}

impl TypeAdd<U<28>> for U<9> {
    type Output = U<37>;
    const VALUE: usize = 37;

    proof fn lemma_output() {
    }
}

impl TypeAdd<U<29>> for U<9> {
    type Output = U<38>;
    const VALUE: usize = 38;

    proof fn lemma_output() {
    }
}

impl TypeAdd<U<30>> for U<9> {
    type Output = U<39>;
    const VALUE: usize = 39;

    proof fn lemma_output() {
    }
}

impl TypeAdd<U<31>> for U<9> {
    type Output = U<40>;
    const VALUE: usize = 40;

    proof fn lemma_output() {
    }
}

impl TypeAdd<U<0>> for U<10> {
    type Output = U<10>;
    const VALUE: usize = 10;

    proof fn lemma_output() {
    }
}

impl TypeAdd<U<1>> for U<10> {
    type Output = U<11>;
    const VALUE: usize = 11;

    proof fn lemma_output() {
    }
}

impl TypeAdd<U<2>> for U<10> {
    type Output = U<12>;
    const VALUE: usize = 12;

    proof fn lemma_output() {
    }
}

impl TypeAdd<U<3>> for U<10> {
    type Output = U<13>;
    const VALUE: usize = 13;

    proof fn lemma_output() {
    }
}

impl TypeAdd<U<4>> for U<10> {
    type Output = U<14>;
    const VALUE: usize = 14;

    proof fn lemma_output() {
    }
}

impl TypeAdd<U<5>> for U<10> {
    type Output = U<15>;
    const VALUE: usize = 15;

    proof fn lemma_output() {
    }
}

impl TypeAdd<U<6>> for U<10> {
    type Output = U<16>;
    const VALUE: usize = 16;

    proof fn lemma_output() {
    }
}

impl TypeAdd<U<7>> for U<10> {
    type Output = U<17>;
    const VALUE: usize = 17;

    proof fn lemma_output() {
    }
}

impl TypeAdd<U<8>> for U<10> {
    type Output = U<18>;
    const VALUE: usize = 18;

    proof fn lemma_output() {
    }
}

impl TypeAdd<U<9>> for U<10> {
    type Output = U<19>;
    const VALUE: usize = 19;

    proof fn lemma_output() {
    }
}

impl TypeAdd<U<10>> for U<10> {
    type Output = U<20>;
    const VALUE: usize = 20;

    proof fn lemma_output() {
    }
}

impl TypeAdd<U<11>> for U<10> {
    type Output = U<21>;
    const VALUE: usize = 21;

    proof fn lemma_output() {
    }
}

impl TypeAdd<U<12>> for U<10> {
    type Output = U<22>;
    const VALUE: usize = 22;

    proof fn lemma_output() {
    }
}

impl TypeAdd<U<13>> for U<10> {
    type Output = U<23>;
    const VALUE: usize = 23;

    proof fn lemma_output() {
    }
}

impl TypeAdd<U<14>> for U<10> {
    type Output = U<24>;
    const VALUE: usize = 24;

    proof fn lemma_output() {
    }
}

impl TypeAdd<U<15>> for U<10> {
    type Output = U<25>;
    const VALUE: usize = 25;

    proof fn lemma_output() {
    }
}

impl TypeAdd<U<16>> for U<10> {
    type Output = U<26>;
    const VALUE: usize = 26;

    proof fn lemma_output() {
    }
}

impl TypeAdd<U<17>> for U<10> {
    type Output = U<27>;
    const VALUE: usize = 27;

    proof fn lemma_output() {
    }
}

impl TypeAdd<U<18>> for U<10> {
    type Output = U<28>;
    const VALUE: usize = 28;

    proof fn lemma_output() {
    }
}

impl TypeAdd<U<19>> for U<10> {
    type Output = U<29>;
    const VALUE: usize = 29;

    proof fn lemma_output() {
    }
}

impl TypeAdd<U<20>> for U<10> {
    type Output = U<30>;
    const VALUE: usize = 30;

    proof fn lemma_output() {
    }
}

impl TypeAdd<U<21>> for U<10> {
    type Output = U<31>;
    const VALUE: usize = 31;

    proof fn lemma_output() {
    }
}

impl TypeAdd<U<22>> for U<10> {
    type Output = U<32>;
    const VALUE: usize = 32;

    proof fn lemma_output() {
    }
}

impl TypeAdd<U<23>> for U<10> {
    type Output = U<33>;
    const VALUE: usize = 33;

    proof fn lemma_output() {
    }
}

impl TypeAdd<U<24>> for U<10> {
    type Output = U<34>;
    const VALUE: usize = 34;

    proof fn lemma_output() {
    }
}

impl TypeAdd<U<25>> for U<10> {
    type Output = U<35>;
    const VALUE: usize = 35;

    proof fn lemma_output() {
    }
}

impl TypeAdd<U<26>> for U<10> {
    type Output = U<36>;
    const VALUE: usize = 36;

    proof fn lemma_output() {
    }
}

impl TypeAdd<U<27>> for U<10> {
    type Output = U<37>;
    const VALUE: usize = 37;

    proof fn lemma_output() {
    }
}

impl TypeAdd<U<28>> for U<10> {
    type Output = U<38>;
    const VALUE: usize = 38;

    proof fn lemma_output() {
    }
}

impl TypeAdd<U<29>> for U<10> {
    type Output = U<39>;
    const VALUE: usize = 39;

    proof fn lemma_output() {
    }
}

impl TypeAdd<U<30>> for U<10> {
    type Output = U<40>;
    const VALUE: usize = 40;

    proof fn lemma_output() {
    }
}

impl TypeAdd<U<31>> for U<10> {
    type Output = U<41>;
    const VALUE: usize = 41;

    proof fn lemma_output() {
    }
}

impl TypeAdd<U<0>> for U<11> {
    type Output = U<11>;
    const VALUE: usize = 11;

    proof fn lemma_output() {
    }
}

impl TypeAdd<U<1>> for U<11> {
    type Output = U<12>;
    const VALUE: usize = 12;

    proof fn lemma_output() {
    }
}

impl TypeAdd<U<2>> for U<11> {
    type Output = U<13>;
    const VALUE: usize = 13;

    proof fn lemma_output() {
    }
}

impl TypeAdd<U<3>> for U<11> {
    type Output = U<14>;
    const VALUE: usize = 14;

    proof fn lemma_output() {
    }
}

impl TypeAdd<U<4>> for U<11> {
    type Output = U<15>;
    const VALUE: usize = 15;

    proof fn lemma_output() {
    }
}

impl TypeAdd<U<5>> for U<11> {
    type Output = U<16>;
    const VALUE: usize = 16;

    proof fn lemma_output() {
    }
}

impl TypeAdd<U<6>> for U<11> {
    type Output = U<17>;
    const VALUE: usize = 17;

    proof fn lemma_output() {
    }
}

impl TypeAdd<U<7>> for U<11> {
    type Output = U<18>;
    const VALUE: usize = 18;

    proof fn lemma_output() {
    }
}

impl TypeAdd<U<8>> for U<11> {
    type Output = U<19>;
    const VALUE: usize = 19;

    proof fn lemma_output() {
    }
}

impl TypeAdd<U<9>> for U<11> {
    type Output = U<20>;
    const VALUE: usize = 20;

    proof fn lemma_output() {
    }
}

impl TypeAdd<U<10>> for U<11> {
    type Output = U<21>;
    const VALUE: usize = 21;

    proof fn lemma_output() {
    }
}

impl TypeAdd<U<11>> for U<11> {
    type Output = U<22>;
    const VALUE: usize = 22;

    proof fn lemma_output() {
    }
}

impl TypeAdd<U<12>> for U<11> {
    type Output = U<23>;
    const VALUE: usize = 23;

    proof fn lemma_output() {
    }
}

impl TypeAdd<U<13>> for U<11> {
    type Output = U<24>;
    const VALUE: usize = 24;

    proof fn lemma_output() {
    }
}

impl TypeAdd<U<14>> for U<11> {
    type Output = U<25>;
    const VALUE: usize = 25;

    proof fn lemma_output() {
    }
}

impl TypeAdd<U<15>> for U<11> {
    type Output = U<26>;
    const VALUE: usize = 26;

    proof fn lemma_output() {
    }
}

impl TypeAdd<U<16>> for U<11> {
    type Output = U<27>;
    const VALUE: usize = 27;

    proof fn lemma_output() {
    }
}

impl TypeAdd<U<17>> for U<11> {
    type Output = U<28>;
    const VALUE: usize = 28;

    proof fn lemma_output() {
    }
}

impl TypeAdd<U<18>> for U<11> {
    type Output = U<29>;
    const VALUE: usize = 29;

    proof fn lemma_output() {
    }
}

impl TypeAdd<U<19>> for U<11> {
    type Output = U<30>;
    const VALUE: usize = 30;

    proof fn lemma_output() {
    }
}

impl TypeAdd<U<20>> for U<11> {
    type Output = U<31>;
    const VALUE: usize = 31;

    proof fn lemma_output() {
    }
}

impl TypeAdd<U<21>> for U<11> {
    type Output = U<32>;
    const VALUE: usize = 32;

    proof fn lemma_output() {
    }
}

impl TypeAdd<U<22>> for U<11> {
    type Output = U<33>;
    const VALUE: usize = 33;

    proof fn lemma_output() {
    }
}

impl TypeAdd<U<23>> for U<11> {
    type Output = U<34>;
    const VALUE: usize = 34;

    proof fn lemma_output() {
    }
}

impl TypeAdd<U<24>> for U<11> {
    type Output = U<35>;
    const VALUE: usize = 35;

    proof fn lemma_output() {
    }
}

impl TypeAdd<U<25>> for U<11> {
    type Output = U<36>;
    const VALUE: usize = 36;

    proof fn lemma_output() {
    }
}

impl TypeAdd<U<26>> for U<11> {
    type Output = U<37>;
    const VALUE: usize = 37;

    proof fn lemma_output() {
    }
}

impl TypeAdd<U<27>> for U<11> {
    type Output = U<38>;
    const VALUE: usize = 38;

    proof fn lemma_output() {
    }
}

impl TypeAdd<U<28>> for U<11> {
    type Output = U<39>;
    const VALUE: usize = 39;

    proof fn lemma_output() {
    }
}

impl TypeAdd<U<29>> for U<11> {
    type Output = U<40>;
    const VALUE: usize = 40;

    proof fn lemma_output() {
    }
}

impl TypeAdd<U<30>> for U<11> {
    type Output = U<41>;
    const VALUE: usize = 41;

    proof fn lemma_output() {
    }
}

impl TypeAdd<U<31>> for U<11> {
    type Output = U<42>;
    const VALUE: usize = 42;

    proof fn lemma_output() {
    }
}

impl TypeAdd<U<0>> for U<12> {
    type Output = U<12>;
    const VALUE: usize = 12;

    proof fn lemma_output() {
    }
}

impl TypeAdd<U<1>> for U<12> {
    type Output = U<13>;
    const VALUE: usize = 13;

    proof fn lemma_output() {
    }
}

impl TypeAdd<U<2>> for U<12> {
    type Output = U<14>;
    const VALUE: usize = 14;

    proof fn lemma_output() {
    }
}

impl TypeAdd<U<3>> for U<12> {
    type Output = U<15>;
    const VALUE: usize = 15;

    proof fn lemma_output() {
    }
}

impl TypeAdd<U<4>> for U<12> {
    type Output = U<16>;
    const VALUE: usize = 16;

    proof fn lemma_output() {
    }
}

impl TypeAdd<U<5>> for U<12> {
    type Output = U<17>;
    const VALUE: usize = 17;

    proof fn lemma_output() {
    }
}

impl TypeAdd<U<6>> for U<12> {
    type Output = U<18>;
    const VALUE: usize = 18;

    proof fn lemma_output() {
    }
}

impl TypeAdd<U<7>> for U<12> {
    type Output = U<19>;
    const VALUE: usize = 19;

    proof fn lemma_output() {
    }
}

impl TypeAdd<U<8>> for U<12> {
    type Output = U<20>;
    const VALUE: usize = 20;

    proof fn lemma_output() {
    }
}

impl TypeAdd<U<9>> for U<12> {
    type Output = U<21>;
    const VALUE: usize = 21;

    proof fn lemma_output() {
    }
}

impl TypeAdd<U<10>> for U<12> {
    type Output = U<22>;
    const VALUE: usize = 22;

    proof fn lemma_output() {
    }
}

impl TypeAdd<U<11>> for U<12> {
    type Output = U<23>;
    const VALUE: usize = 23;

    proof fn lemma_output() {
    }
}

impl TypeAdd<U<12>> for U<12> {
    type Output = U<24>;
    const VALUE: usize = 24;

    proof fn lemma_output() {
    }
}

impl TypeAdd<U<13>> for U<12> {
    type Output = U<25>;
    const VALUE: usize = 25;

    proof fn lemma_output() {
    }
}

impl TypeAdd<U<14>> for U<12> {
    type Output = U<26>;
    const VALUE: usize = 26;

    proof fn lemma_output() {
    }
}

impl TypeAdd<U<15>> for U<12> {
    type Output = U<27>;
    const VALUE: usize = 27;

    proof fn lemma_output() {
    }
}

impl TypeAdd<U<16>> for U<12> {
    type Output = U<28>;
    const VALUE: usize = 28;

    proof fn lemma_output() {
    }
}

impl TypeAdd<U<17>> for U<12> {
    type Output = U<29>;
    const VALUE: usize = 29;

    proof fn lemma_output() {
    }
}

impl TypeAdd<U<18>> for U<12> {
    type Output = U<30>;
    const VALUE: usize = 30;

    proof fn lemma_output() {
    }
}

impl TypeAdd<U<19>> for U<12> {
    type Output = U<31>;
    const VALUE: usize = 31;

    proof fn lemma_output() {
    }
}

impl TypeAdd<U<20>> for U<12> {
    type Output = U<32>;
    const VALUE: usize = 32;

    proof fn lemma_output() {
    }
}

impl TypeAdd<U<21>> for U<12> {
    type Output = U<33>;
    const VALUE: usize = 33;

    proof fn lemma_output() {
    }
}

impl TypeAdd<U<22>> for U<12> {
    type Output = U<34>;
    const VALUE: usize = 34;

    proof fn lemma_output() {
    }
}

impl TypeAdd<U<23>> for U<12> {
    type Output = U<35>;
    const VALUE: usize = 35;

    proof fn lemma_output() {
    }
}

impl TypeAdd<U<24>> for U<12> {
    type Output = U<36>;
    const VALUE: usize = 36;

    proof fn lemma_output() {
    }
}

impl TypeAdd<U<25>> for U<12> {
    type Output = U<37>;
    const VALUE: usize = 37;

    proof fn lemma_output() {
    }
}

impl TypeAdd<U<26>> for U<12> {
    type Output = U<38>;
    const VALUE: usize = 38;

    proof fn lemma_output() {
    }
}

impl TypeAdd<U<27>> for U<12> {
    type Output = U<39>;
    const VALUE: usize = 39;

    proof fn lemma_output() {
    }
}

impl TypeAdd<U<28>> for U<12> {
    type Output = U<40>;
    const VALUE: usize = 40;

    proof fn lemma_output() {
    }
}

impl TypeAdd<U<29>> for U<12> {
    type Output = U<41>;
    const VALUE: usize = 41;

    proof fn lemma_output() {
    }
}

impl TypeAdd<U<30>> for U<12> {
    type Output = U<42>;
    const VALUE: usize = 42;

    proof fn lemma_output() {
    }
}

impl TypeAdd<U<31>> for U<12> {
    type Output = U<43>;
    const VALUE: usize = 43;

    proof fn lemma_output() {
    }
}

impl TypeAdd<U<0>> for U<13> {
    type Output = U<13>;
    const VALUE: usize = 13;

    proof fn lemma_output() {
    }
}

impl TypeAdd<U<1>> for U<13> {
    type Output = U<14>;
    const VALUE: usize = 14;

    proof fn lemma_output() {
    }
}

impl TypeAdd<U<2>> for U<13> {
    type Output = U<15>;
    const VALUE: usize = 15;

    proof fn lemma_output() {
    }
}

impl TypeAdd<U<3>> for U<13> {
    type Output = U<16>;
    const VALUE: usize = 16;

    proof fn lemma_output() {
    }
}

impl TypeAdd<U<4>> for U<13> {
    type Output = U<17>;
    const VALUE: usize = 17;

    proof fn lemma_output() {
    }
}

impl TypeAdd<U<5>> for U<13> {
    type Output = U<18>;
    const VALUE: usize = 18;

    proof fn lemma_output() {
    }
}

impl TypeAdd<U<6>> for U<13> {
    type Output = U<19>;
    const VALUE: usize = 19;

    proof fn lemma_output() {
    }
}

impl TypeAdd<U<7>> for U<13> {
    type Output = U<20>;
    const VALUE: usize = 20;

    proof fn lemma_output() {
    }
}

impl TypeAdd<U<8>> for U<13> {
    type Output = U<21>;
    const VALUE: usize = 21;

    proof fn lemma_output() {
    }
}

impl TypeAdd<U<9>> for U<13> {
    type Output = U<22>;
    const VALUE: usize = 22;

    proof fn lemma_output() {
    }
}

impl TypeAdd<U<10>> for U<13> {
    type Output = U<23>;
    const VALUE: usize = 23;

    proof fn lemma_output() {
    }
}

impl TypeAdd<U<11>> for U<13> {
    type Output = U<24>;
    const VALUE: usize = 24;

    proof fn lemma_output() {
    }
}

impl TypeAdd<U<12>> for U<13> {
    type Output = U<25>;
    const VALUE: usize = 25;

    proof fn lemma_output() {
    }
}

impl TypeAdd<U<13>> for U<13> {
    type Output = U<26>;
    const VALUE: usize = 26;

    proof fn lemma_output() {
    }
}

impl TypeAdd<U<14>> for U<13> {
    type Output = U<27>;
    const VALUE: usize = 27;

    proof fn lemma_output() {
    }
}

impl TypeAdd<U<15>> for U<13> {
    type Output = U<28>;
    const VALUE: usize = 28;

    proof fn lemma_output() {
    }
}

impl TypeAdd<U<16>> for U<13> {
    type Output = U<29>;
    const VALUE: usize = 29;

    proof fn lemma_output() {
    }
}

impl TypeAdd<U<17>> for U<13> {
    type Output = U<30>;
    const VALUE: usize = 30;

    proof fn lemma_output() {
    }
}

impl TypeAdd<U<18>> for U<13> {
    type Output = U<31>;
    const VALUE: usize = 31;

    proof fn lemma_output() {
    }
}

impl TypeAdd<U<19>> for U<13> {
    type Output = U<32>;
    const VALUE: usize = 32;

    proof fn lemma_output() {
    }
}

impl TypeAdd<U<20>> for U<13> {
    type Output = U<33>;
    const VALUE: usize = 33;

    proof fn lemma_output() {
    }
}

impl TypeAdd<U<21>> for U<13> {
    type Output = U<34>;
    const VALUE: usize = 34;

    proof fn lemma_output() {
    }
}

impl TypeAdd<U<22>> for U<13> {
    type Output = U<35>;
    const VALUE: usize = 35;

    proof fn lemma_output() {
    }
}

impl TypeAdd<U<23>> for U<13> {
    type Output = U<36>;
    const VALUE: usize = 36;

    proof fn lemma_output() {
    }
}

impl TypeAdd<U<24>> for U<13> {
    type Output = U<37>;
    const VALUE: usize = 37;

    proof fn lemma_output() {
    }
}

impl TypeAdd<U<25>> for U<13> {
    type Output = U<38>;
    const VALUE: usize = 38;

    proof fn lemma_output() {
    }
}

impl TypeAdd<U<26>> for U<13> {
    type Output = U<39>;
    const VALUE: usize = 39;

    proof fn lemma_output() {
    }
}

impl TypeAdd<U<27>> for U<13> {
    type Output = U<40>;
    const VALUE: usize = 40;

    proof fn lemma_output() {
    }
}

impl TypeAdd<U<28>> for U<13> {
    type Output = U<41>;
    const VALUE: usize = 41;

    proof fn lemma_output() {
    }
}

impl TypeAdd<U<29>> for U<13> {
    type Output = U<42>;
    const VALUE: usize = 42;

    proof fn lemma_output() {
    }
}

impl TypeAdd<U<30>> for U<13> {
    type Output = U<43>;
    const VALUE: usize = 43;

    proof fn lemma_output() {
    }
}

impl TypeAdd<U<31>> for U<13> {
    type Output = U<44>;
    const VALUE: usize = 44;

    proof fn lemma_output() {
    }
}

impl TypeAdd<U<0>> for U<14> {
    type Output = U<14>;
    const VALUE: usize = 14;

    proof fn lemma_output() {
    }
}

impl TypeAdd<U<1>> for U<14> {
    type Output = U<15>;
    const VALUE: usize = 15;

    proof fn lemma_output() {
    }
}

impl TypeAdd<U<2>> for U<14> {
    type Output = U<16>;
    const VALUE: usize = 16;

    proof fn lemma_output() {
    }
}

impl TypeAdd<U<3>> for U<14> {
    type Output = U<17>;
    const VALUE: usize = 17;

    proof fn lemma_output() {
    }
}

impl TypeAdd<U<4>> for U<14> {
    type Output = U<18>;
    const VALUE: usize = 18;

    proof fn lemma_output() {
    }
}

impl TypeAdd<U<5>> for U<14> {
    type Output = U<19>;
    const VALUE: usize = 19;

    proof fn lemma_output() {
    }
}

impl TypeAdd<U<6>> for U<14> {
    type Output = U<20>;
    const VALUE: usize = 20;

    proof fn lemma_output() {
    }
}

impl TypeAdd<U<7>> for U<14> {
    type Output = U<21>;
    const VALUE: usize = 21;

    proof fn lemma_output() {
    }
}

impl TypeAdd<U<8>> for U<14> {
    type Output = U<22>;
    const VALUE: usize = 22;

    proof fn lemma_output() {
    }
}

impl TypeAdd<U<9>> for U<14> {
    type Output = U<23>;
    const VALUE: usize = 23;

    proof fn lemma_output() {
    }
}

impl TypeAdd<U<10>> for U<14> {
    type Output = U<24>;
    const VALUE: usize = 24;

    proof fn lemma_output() {
    }
}

impl TypeAdd<U<11>> for U<14> {
    type Output = U<25>;
    const VALUE: usize = 25;

    proof fn lemma_output() {
    }
}

impl TypeAdd<U<12>> for U<14> {
    type Output = U<26>;
    const VALUE: usize = 26;

    proof fn lemma_output() {
    }
}

impl TypeAdd<U<13>> for U<14> {
    type Output = U<27>;
    const VALUE: usize = 27;

    proof fn lemma_output() {
    }
}

impl TypeAdd<U<14>> for U<14> {
    type Output = U<28>;
    const VALUE: usize = 28;

    proof fn lemma_output() {
    }
}

impl TypeAdd<U<15>> for U<14> {
    type Output = U<29>;
    const VALUE: usize = 29;

    proof fn lemma_output() {
    }
}

impl TypeAdd<U<16>> for U<14> {
    type Output = U<30>;
    const VALUE: usize = 30;

    proof fn lemma_output() {
    }
}

impl TypeAdd<U<17>> for U<14> {
    type Output = U<31>;
    const VALUE: usize = 31;

    proof fn lemma_output() {
    }
}

impl TypeAdd<U<18>> for U<14> {
    type Output = U<32>;
    const VALUE: usize = 32;

    proof fn lemma_output() {
    }
}

impl TypeAdd<U<19>> for U<14> {
    type Output = U<33>;
    const VALUE: usize = 33;

    proof fn lemma_output() {
    }
}

impl TypeAdd<U<20>> for U<14> {
    type Output = U<34>;
    const VALUE: usize = 34;

    proof fn lemma_output() {
    }
}

impl TypeAdd<U<21>> for U<14> {
    type Output = U<35>;
    const VALUE: usize = 35;

    proof fn lemma_output() {
    }
}

impl TypeAdd<U<22>> for U<14> {
    type Output = U<36>;
    const VALUE: usize = 36;

    proof fn lemma_output() {
    }
}

impl TypeAdd<U<23>> for U<14> {
    type Output = U<37>;
    const VALUE: usize = 37;

    proof fn lemma_output() {
    }
}

impl TypeAdd<U<24>> for U<14> {
    type Output = U<38>;
    const VALUE: usize = 38;

    proof fn lemma_output() {
    }
}

impl TypeAdd<U<25>> for U<14> {
    type Output = U<39>;
    const VALUE: usize = 39;

    proof fn lemma_output() {
    }
}

impl TypeAdd<U<26>> for U<14> {
    type Output = U<40>;
    const VALUE: usize = 40;

    proof fn lemma_output() {
    }
}

impl TypeAdd<U<27>> for U<14> {
    type Output = U<41>;
    const VALUE: usize = 41;

    proof fn lemma_output() {
    }
}

impl TypeAdd<U<28>> for U<14> {
    type Output = U<42>;
    const VALUE: usize = 42;

    proof fn lemma_output() {
    }
}

impl TypeAdd<U<29>> for U<14> {
    type Output = U<43>;
    const VALUE: usize = 43;

    proof fn lemma_output() {
    }
}

impl TypeAdd<U<30>> for U<14> {
    type Output = U<44>;
    const VALUE: usize = 44;

    proof fn lemma_output() {
    }
}

impl TypeAdd<U<31>> for U<14> {
    type Output = U<45>;
    const VALUE: usize = 45;

    proof fn lemma_output() {
    }
}

impl TypeAdd<U<0>> for U<15> {
    type Output = U<15>;
    const VALUE: usize = 15;

    proof fn lemma_output() {
    }
}

impl TypeAdd<U<1>> for U<15> {
    type Output = U<16>;
    const VALUE: usize = 16;

    proof fn lemma_output() {
    }
}

impl TypeAdd<U<2>> for U<15> {
    type Output = U<17>;
    const VALUE: usize = 17;

    proof fn lemma_output() {
    }
}

impl TypeAdd<U<3>> for U<15> {
    type Output = U<18>;
    const VALUE: usize = 18;

    proof fn lemma_output() {
    }
}

impl TypeAdd<U<4>> for U<15> {
    type Output = U<19>;
    const VALUE: usize = 19;

    proof fn lemma_output() {
    }
}

impl TypeAdd<U<5>> for U<15> {
    type Output = U<20>;
    const VALUE: usize = 20;

    proof fn lemma_output() {
    }
}

impl TypeAdd<U<6>> for U<15> {
    type Output = U<21>;
    const VALUE: usize = 21;

    proof fn lemma_output() {
    }
}

impl TypeAdd<U<7>> for U<15> {
    type Output = U<22>;
    const VALUE: usize = 22;

    proof fn lemma_output() {
    }
}

impl TypeAdd<U<8>> for U<15> {
    type Output = U<23>;
    const VALUE: usize = 23;

    proof fn lemma_output() {
    }
}

impl TypeAdd<U<9>> for U<15> {
    type Output = U<24>;
    const VALUE: usize = 24;

    proof fn lemma_output() {
    }
}

impl TypeAdd<U<10>> for U<15> {
    type Output = U<25>;
    const VALUE: usize = 25;

    proof fn lemma_output() {
    }
}

impl TypeAdd<U<11>> for U<15> {
    type Output = U<26>;
    const VALUE: usize = 26;

    proof fn lemma_output() {
    }
}

impl TypeAdd<U<12>> for U<15> {
    type Output = U<27>;
    const VALUE: usize = 27;

    proof fn lemma_output() {
    }
}

impl TypeAdd<U<13>> for U<15> {
    type Output = U<28>;
    const VALUE: usize = 28;

    proof fn lemma_output() {
    }
}

impl TypeAdd<U<14>> for U<15> {
    type Output = U<29>;
    const VALUE: usize = 29;

    proof fn lemma_output() {
    }
}

impl TypeAdd<U<15>> for U<15> {
    type Output = U<30>;
    const VALUE: usize = 30;

    proof fn lemma_output() {
    }
}

impl TypeAdd<U<16>> for U<15> {
    type Output = U<31>;
    const VALUE: usize = 31;

    proof fn lemma_output() {
    }
}

impl TypeAdd<U<17>> for U<15> {
    type Output = U<32>;
    const VALUE: usize = 32;

    proof fn lemma_output() {
    }
}

impl TypeAdd<U<18>> for U<15> {
    type Output = U<33>;
    const VALUE: usize = 33;

    proof fn lemma_output() {
    }
}

impl TypeAdd<U<19>> for U<15> {
    type Output = U<34>;
    const VALUE: usize = 34;

    proof fn lemma_output() {
    }
}

impl TypeAdd<U<20>> for U<15> {
    type Output = U<35>;
    const VALUE: usize = 35;

    proof fn lemma_output() {
    }
}

impl TypeAdd<U<21>> for U<15> {
    type Output = U<36>;
    const VALUE: usize = 36;

    proof fn lemma_output() {
    }
}

impl TypeAdd<U<22>> for U<15> {
    type Output = U<37>;
    const VALUE: usize = 37;

    proof fn lemma_output() {
    }
}

impl TypeAdd<U<23>> for U<15> {
    type Output = U<38>;
    const VALUE: usize = 38;

    proof fn lemma_output() {
    }
}

impl TypeAdd<U<24>> for U<15> {
    type Output = U<39>;
    const VALUE: usize = 39;

    proof fn lemma_output() {
    }
}

impl TypeAdd<U<25>> for U<15> {
    type Output = U<40>;
    const VALUE: usize = 40;

    proof fn lemma_output() {
    }
}

impl TypeAdd<U<26>> for U<15> {
    type Output = U<41>;
    const VALUE: usize = 41;

    proof fn lemma_output() {
    }
}

impl TypeAdd<U<27>> for U<15> {
    type Output = U<42>;
    const VALUE: usize = 42;

    proof fn lemma_output() {
    }
}

impl TypeAdd<U<28>> for U<15> {
    type Output = U<43>;
    const VALUE: usize = 43;

    proof fn lemma_output() {
    }
}

impl TypeAdd<U<29>> for U<15> {
    type Output = U<44>;
    const VALUE: usize = 44;

    proof fn lemma_output() {
    }
}

impl TypeAdd<U<30>> for U<15> {
    type Output = U<45>;
    const VALUE: usize = 45;

    proof fn lemma_output() {
    }
}

impl TypeAdd<U<31>> for U<15> {
    type Output = U<46>;
    const VALUE: usize = 46;

    proof fn lemma_output() {
    }
}

impl TypeAdd<U<0>> for U<16> {
    type Output = U<16>;
    const VALUE: usize = 16;

    proof fn lemma_output() {
    }
}

impl TypeAdd<U<1>> for U<16> {
    type Output = U<17>;
    const VALUE: usize = 17;

    proof fn lemma_output() {
    }
}

impl TypeAdd<U<2>> for U<16> {
    type Output = U<18>;
    const VALUE: usize = 18;

    proof fn lemma_output() {
    }
}

impl TypeAdd<U<3>> for U<16> {
    type Output = U<19>;
    const VALUE: usize = 19;

    proof fn lemma_output() {
    }
}

impl TypeAdd<U<4>> for U<16> {
    type Output = U<20>;
    const VALUE: usize = 20;

    proof fn lemma_output() {
    }
}

impl TypeAdd<U<5>> for U<16> {
    type Output = U<21>;
    const VALUE: usize = 21;

    proof fn lemma_output() {
    }
}

impl TypeAdd<U<6>> for U<16> {
    type Output = U<22>;
    const VALUE: usize = 22;

    proof fn lemma_output() {
    }
}

impl TypeAdd<U<7>> for U<16> {
    type Output = U<23>;
    const VALUE: usize = 23;

    proof fn lemma_output() {
    }
}

impl TypeAdd<U<8>> for U<16> {
    type Output = U<24>;
    const VALUE: usize = 24;

    proof fn lemma_output() {
    }
}

impl TypeAdd<U<9>> for U<16> {
    type Output = U<25>;
    const VALUE: usize = 25;

    proof fn lemma_output() {
    }
}

impl TypeAdd<U<10>> for U<16> {
    type Output = U<26>;
    const VALUE: usize = 26;

    proof fn lemma_output() {
    }
}

impl TypeAdd<U<11>> for U<16> {
    type Output = U<27>;
    const VALUE: usize = 27;

    proof fn lemma_output() {
    }
}

impl TypeAdd<U<12>> for U<16> {
    type Output = U<28>;
    const VALUE: usize = 28;

    proof fn lemma_output() {
    }
}

impl TypeAdd<U<13>> for U<16> {
    type Output = U<29>;
    const VALUE: usize = 29;

    proof fn lemma_output() {
    }
}

impl TypeAdd<U<14>> for U<16> {
    type Output = U<30>;
    const VALUE: usize = 30;

    proof fn lemma_output() {
    }
}

impl TypeAdd<U<15>> for U<16> {
    type Output = U<31>;
    const VALUE: usize = 31;

    proof fn lemma_output() {
    }
}

impl TypeAdd<U<16>> for U<16> {
    type Output = U<32>;
    const VALUE: usize = 32;

    proof fn lemma_output() {
    }
}

impl TypeAdd<U<17>> for U<16> {
    type Output = U<33>;
    const VALUE: usize = 33;

    proof fn lemma_output() {
    }
}

impl TypeAdd<U<18>> for U<16> {
    type Output = U<34>;
    const VALUE: usize = 34;

    proof fn lemma_output() {
    }
}

impl TypeAdd<U<19>> for U<16> {
    type Output = U<35>;
    const VALUE: usize = 35;

    proof fn lemma_output() {
    }
}

impl TypeAdd<U<20>> for U<16> {
    type Output = U<36>;
    const VALUE: usize = 36;

    proof fn lemma_output() {
    }
}

impl TypeAdd<U<21>> for U<16> {
    type Output = U<37>;
    const VALUE: usize = 37;

    proof fn lemma_output() {
    }
}

impl TypeAdd<U<22>> for U<16> {
    type Output = U<38>;
    const VALUE: usize = 38;

    proof fn lemma_output() {
    }
}

impl TypeAdd<U<23>> for U<16> {
    type Output = U<39>;
    const VALUE: usize = 39;

    proof fn lemma_output() {
    }
}

impl TypeAdd<U<24>> for U<16> {
    type Output = U<40>;
    const VALUE: usize = 40;

    proof fn lemma_output() {
    }
}

impl TypeAdd<U<25>> for U<16> {
    type Output = U<41>;
    const VALUE: usize = 41;

    proof fn lemma_output() {
    }
}

impl TypeAdd<U<26>> for U<16> {
    type Output = U<42>;
    const VALUE: usize = 42;

    proof fn lemma_output() {
    }
}

impl TypeAdd<U<27>> for U<16> {
    type Output = U<43>;
    const VALUE: usize = 43;

    proof fn lemma_output() {
    }
}

impl TypeAdd<U<28>> for U<16> {
    type Output = U<44>;
    const VALUE: usize = 44;

    proof fn lemma_output() {
    }
}

impl TypeAdd<U<29>> for U<16> {
    type Output = U<45>;
    const VALUE: usize = 45;

    proof fn lemma_output() {
    }
}

impl TypeAdd<U<30>> for U<16> {
    type Output = U<46>;
    const VALUE: usize = 46;

    proof fn lemma_output() {
    }
}

impl TypeAdd<U<31>> for U<16> {
    type Output = U<47>;
    const VALUE: usize = 47;

    proof fn lemma_output() {
    }
}

impl TypeAdd<U<0>> for U<17> {
    type Output = U<17>;
    const VALUE: usize = 17;

    proof fn lemma_output() {
    }
}

impl TypeAdd<U<1>> for U<17> {
    type Output = U<18>;
    const VALUE: usize = 18;

    proof fn lemma_output() {
    }
}

impl TypeAdd<U<2>> for U<17> {
    type Output = U<19>;
    const VALUE: usize = 19;

    proof fn lemma_output() {
    }
}

impl TypeAdd<U<3>> for U<17> {
    type Output = U<20>;
    const VALUE: usize = 20;

    proof fn lemma_output() {
    }
}

impl TypeAdd<U<4>> for U<17> {
    type Output = U<21>;
    const VALUE: usize = 21;

    proof fn lemma_output() {
    }
}

impl TypeAdd<U<5>> for U<17> {
    type Output = U<22>;
    const VALUE: usize = 22;

    proof fn lemma_output() {
    }
}

impl TypeAdd<U<6>> for U<17> {
    type Output = U<23>;
    const VALUE: usize = 23;

    proof fn lemma_output() {
    }
}

impl TypeAdd<U<7>> for U<17> {
    type Output = U<24>;
    const VALUE: usize = 24;

    proof fn lemma_output() {
    }
}

impl TypeAdd<U<8>> for U<17> {
    type Output = U<25>;
    const VALUE: usize = 25;

    proof fn lemma_output() {
    }
}

impl TypeAdd<U<9>> for U<17> {
    type Output = U<26>;
    const VALUE: usize = 26;

    proof fn lemma_output() {
    }
}

impl TypeAdd<U<10>> for U<17> {
    type Output = U<27>;
    const VALUE: usize = 27;

    proof fn lemma_output() {
    }
}

impl TypeAdd<U<11>> for U<17> {
    type Output = U<28>;
    const VALUE: usize = 28;

    proof fn lemma_output() {
    }
}

impl TypeAdd<U<12>> for U<17> {
    type Output = U<29>;
    const VALUE: usize = 29;

    proof fn lemma_output() {
    }
}

impl TypeAdd<U<13>> for U<17> {
    type Output = U<30>;
    const VALUE: usize = 30;

    proof fn lemma_output() {
    }
}

impl TypeAdd<U<14>> for U<17> {
    type Output = U<31>;
    const VALUE: usize = 31;

    proof fn lemma_output() {
    }
}

impl TypeAdd<U<15>> for U<17> {
    type Output = U<32>;
    const VALUE: usize = 32;

    proof fn lemma_output() {
    }
}

impl TypeAdd<U<16>> for U<17> {
    type Output = U<33>;
    const VALUE: usize = 33;

    proof fn lemma_output() {
    }
}

impl TypeAdd<U<17>> for U<17> {
    type Output = U<34>;
    const VALUE: usize = 34;

    proof fn lemma_output() {
    }
}

impl TypeAdd<U<18>> for U<17> {
    type Output = U<35>;
    const VALUE: usize = 35;

    proof fn lemma_output() {
    }
}

impl TypeAdd<U<19>> for U<17> {
    type Output = U<36>;
    const VALUE: usize = 36;

    proof fn lemma_output() {
    }
}

impl TypeAdd<U<20>> for U<17> {
    type Output = U<37>;
    const VALUE: usize = 37;

    proof fn lemma_output() {
    }
}

impl TypeAdd<U<21>> for U<17> {
    type Output = U<38>;
    const VALUE: usize = 38;

    proof fn lemma_output() {
    }
}

impl TypeAdd<U<22>> for U<17> {
    type Output = U<39>;
    const VALUE: usize = 39;

    proof fn lemma_output() {
    }
}

impl TypeAdd<U<23>> for U<17> {
    type Output = U<40>;
    const VALUE: usize = 40;

    proof fn lemma_output() {
    }
}

impl TypeAdd<U<24>> for U<17> {
    type Output = U<41>;
    const VALUE: usize = 41;

    proof fn lemma_output() {
    }
}

impl TypeAdd<U<25>> for U<17> {
    type Output = U<42>;
    const VALUE: usize = 42;

    proof fn lemma_output() {
    }
}

impl TypeAdd<U<26>> for U<17> {
    type Output = U<43>;
    const VALUE: usize = 43;

    proof fn lemma_output() {
    }
}

impl TypeAdd<U<27>> for U<17> {
    type Output = U<44>;
    const VALUE: usize = 44;

    proof fn lemma_output() {
    }
}

impl TypeAdd<U<28>> for U<17> {
    type Output = U<45>;
    const VALUE: usize = 45;

    proof fn lemma_output() {
    }
}

impl TypeAdd<U<29>> for U<17> {
    type Output = U<46>;
    const VALUE: usize = 46;

    proof fn lemma_output() {
    }
}

impl TypeAdd<U<30>> for U<17> {
    type Output = U<47>;
    const VALUE: usize = 47;

    proof fn lemma_output() {
    }
}

impl TypeAdd<U<31>> for U<17> {
    type Output = U<48>;
    const VALUE: usize = 48;

    proof fn lemma_output() {
    }
}

impl TypeAdd<U<0>> for U<18> {
    type Output = U<18>;
    const VALUE: usize = 18;

    proof fn lemma_output() {
    }
}

impl TypeAdd<U<1>> for U<18> {
    type Output = U<19>;
    const VALUE: usize = 19;

    proof fn lemma_output() {
    }
}

impl TypeAdd<U<2>> for U<18> {
    type Output = U<20>;
    const VALUE: usize = 20;

    proof fn lemma_output() {
    }
}

impl TypeAdd<U<3>> for U<18> {
    type Output = U<21>;
    const VALUE: usize = 21;

    proof fn lemma_output() {
    }
}

impl TypeAdd<U<4>> for U<18> {
    type Output = U<22>;
    const VALUE: usize = 22;

    proof fn lemma_output() {
    }
}

impl TypeAdd<U<5>> for U<18> {
    type Output = U<23>;
    const VALUE: usize = 23;

    proof fn lemma_output() {
    }
}

impl TypeAdd<U<6>> for U<18> {
    type Output = U<24>;
    const VALUE: usize = 24;

    proof fn lemma_output() {
    }
}

impl TypeAdd<U<7>> for U<18> {
    type Output = U<25>;
    const VALUE: usize = 25;

    proof fn lemma_output() {
    }
}

impl TypeAdd<U<8>> for U<18> {
    type Output = U<26>;
    const VALUE: usize = 26;

    proof fn lemma_output() {
    }
}

impl TypeAdd<U<9>> for U<18> {
    type Output = U<27>;
    const VALUE: usize = 27;

    proof fn lemma_output() {
    }
}

impl TypeAdd<U<10>> for U<18> {
    type Output = U<28>;
    const VALUE: usize = 28;

    proof fn lemma_output() {
    }
}

impl TypeAdd<U<11>> for U<18> {
    type Output = U<29>;
    const VALUE: usize = 29;

    proof fn lemma_output() {
    }
}

impl TypeAdd<U<12>> for U<18> {
    type Output = U<30>;
    const VALUE: usize = 30;

    proof fn lemma_output() {
    }
}

impl TypeAdd<U<13>> for U<18> {
    type Output = U<31>;
    const VALUE: usize = 31;

    proof fn lemma_output() {
    }
}

impl TypeAdd<U<14>> for U<18> {
    type Output = U<32>;
    const VALUE: usize = 32;

    proof fn lemma_output() {
    }
}

impl TypeAdd<U<15>> for U<18> {
    type Output = U<33>;
    const VALUE: usize = 33;

    proof fn lemma_output() {
    }
}

impl TypeAdd<U<16>> for U<18> {
    type Output = U<34>;
    const VALUE: usize = 34;

    proof fn lemma_output() {
    }
}

impl TypeAdd<U<17>> for U<18> {
    type Output = U<35>;
    const VALUE: usize = 35;

    proof fn lemma_output() {
    }
}

impl TypeAdd<U<18>> for U<18> {
    type Output = U<36>;
    const VALUE: usize = 36;

    proof fn lemma_output() {
    }
}

impl TypeAdd<U<19>> for U<18> {
    type Output = U<37>;
    const VALUE: usize = 37;

    proof fn lemma_output() {
    }
}

impl TypeAdd<U<20>> for U<18> {
    type Output = U<38>;
    const VALUE: usize = 38;

    proof fn lemma_output() {
    }
}

impl TypeAdd<U<21>> for U<18> {
    type Output = U<39>;
    const VALUE: usize = 39;

    proof fn lemma_output() {
    }
}

impl TypeAdd<U<22>> for U<18> {
    type Output = U<40>;
    const VALUE: usize = 40;

    proof fn lemma_output() {
    }
}

impl TypeAdd<U<23>> for U<18> {
    type Output = U<41>;
    const VALUE: usize = 41;

    proof fn lemma_output() {
    }
}

impl TypeAdd<U<24>> for U<18> {
    type Output = U<42>;
    const VALUE: usize = 42;

    proof fn lemma_output() {
    }
}

impl TypeAdd<U<25>> for U<18> {
    type Output = U<43>;
    const VALUE: usize = 43;

    proof fn lemma_output() {
    }
}

impl TypeAdd<U<26>> for U<18> {
    type Output = U<44>;
    const VALUE: usize = 44;

    proof fn lemma_output() {
    }
}

impl TypeAdd<U<27>> for U<18> {
    type Output = U<45>;
    const VALUE: usize = 45;

    proof fn lemma_output() {
    }
}

impl TypeAdd<U<28>> for U<18> {
    type Output = U<46>;
    const VALUE: usize = 46;

    proof fn lemma_output() {
    }
}

impl TypeAdd<U<29>> for U<18> {
    type Output = U<47>;
    const VALUE: usize = 47;

    proof fn lemma_output() {
    }
}

impl TypeAdd<U<30>> for U<18> {
    type Output = U<48>;
    const VALUE: usize = 48;

    proof fn lemma_output() {
    }
}

impl TypeAdd<U<31>> for U<18> {
    type Output = U<49>;
    const VALUE: usize = 49;

    proof fn lemma_output() {
    }
}

impl TypeAdd<U<0>> for U<19> {
    type Output = U<19>;
    const VALUE: usize = 19;

    proof fn lemma_output() {
    }
}

impl TypeAdd<U<1>> for U<19> {
    type Output = U<20>;
    const VALUE: usize = 20;

    proof fn lemma_output() {
    }
}

impl TypeAdd<U<2>> for U<19> {
    type Output = U<21>;
    const VALUE: usize = 21;

    proof fn lemma_output() {
    }
}

impl TypeAdd<U<3>> for U<19> {
    type Output = U<22>;
    const VALUE: usize = 22;

    proof fn lemma_output() {
    }
}

impl TypeAdd<U<4>> for U<19> {
    type Output = U<23>;
    const VALUE: usize = 23;

    proof fn lemma_output() {
    }
}

impl TypeAdd<U<5>> for U<19> {
    type Output = U<24>;
    const VALUE: usize = 24;

    proof fn lemma_output() {
    }
}

impl TypeAdd<U<6>> for U<19> {
    type Output = U<25>;
    const VALUE: usize = 25;

    proof fn lemma_output() {
    }
}

impl TypeAdd<U<7>> for U<19> {
    type Output = U<26>;
    const VALUE: usize = 26;

    proof fn lemma_output() {
    }
}

impl TypeAdd<U<8>> for U<19> {
    type Output = U<27>;
    const VALUE: usize = 27;

    proof fn lemma_output() {
    }
}

impl TypeAdd<U<9>> for U<19> {
    type Output = U<28>;
    const VALUE: usize = 28;

    proof fn lemma_output() {
    }
}

impl TypeAdd<U<10>> for U<19> {
    type Output = U<29>;
    const VALUE: usize = 29;

    proof fn lemma_output() {
    }
}

impl TypeAdd<U<11>> for U<19> {
    type Output = U<30>;
    const VALUE: usize = 30;

    proof fn lemma_output() {
    }
}

impl TypeAdd<U<12>> for U<19> {
    type Output = U<31>;
    const VALUE: usize = 31;

    proof fn lemma_output() {
    }
}

impl TypeAdd<U<13>> for U<19> {
    type Output = U<32>;
    const VALUE: usize = 32;

    proof fn lemma_output() {
    }
}

impl TypeAdd<U<14>> for U<19> {
    type Output = U<33>;
    const VALUE: usize = 33;

    proof fn lemma_output() {
    }
}

impl TypeAdd<U<15>> for U<19> {
    type Output = U<34>;
    const VALUE: usize = 34;

    proof fn lemma_output() {
    }
}

impl TypeAdd<U<16>> for U<19> {
    type Output = U<35>;
    const VALUE: usize = 35;

    proof fn lemma_output() {
    }
}

impl TypeAdd<U<17>> for U<19> {
    type Output = U<36>;
    const VALUE: usize = 36;

    proof fn lemma_output() {
    }
}

impl TypeAdd<U<18>> for U<19> {
    type Output = U<37>;
    const VALUE: usize = 37;

    proof fn lemma_output() {
    }
}

impl TypeAdd<U<19>> for U<19> {
    type Output = U<38>;
    const VALUE: usize = 38;

    proof fn lemma_output() {
    }
}

impl TypeAdd<U<20>> for U<19> {
    type Output = U<39>;
    const VALUE: usize = 39;

    proof fn lemma_output() {
    }
}

impl TypeAdd<U<21>> for U<19> {
    type Output = U<40>;
    const VALUE: usize = 40;

    proof fn lemma_output() {
    }
}

impl TypeAdd<U<22>> for U<19> {
    type Output = U<41>;
    const VALUE: usize = 41;

    proof fn lemma_output() {
    }
}

impl TypeAdd<U<23>> for U<19> {
    type Output = U<42>;
    const VALUE: usize = 42;

    proof fn lemma_output() {
    }
}

impl TypeAdd<U<24>> for U<19> {
    type Output = U<43>;
    const VALUE: usize = 43;

    proof fn lemma_output() {
    }
}

impl TypeAdd<U<25>> for U<19> {
    type Output = U<44>;
    const VALUE: usize = 44;

    proof fn lemma_output() {
    }
}

impl TypeAdd<U<26>> for U<19> {
    type Output = U<45>;
    const VALUE: usize = 45;

    proof fn lemma_output() {
    }
}

impl TypeAdd<U<27>> for U<19> {
    type Output = U<46>;
    const VALUE: usize = 46;

    proof fn lemma_output() {
    }
}

impl TypeAdd<U<28>> for U<19> {
    type Output = U<47>;
    const VALUE: usize = 47;

    proof fn lemma_output() {
    }
}

impl TypeAdd<U<29>> for U<19> {
    type Output = U<48>;
    const VALUE: usize = 48;

    proof fn lemma_output() {
    }
}

impl TypeAdd<U<30>> for U<19> {
    type Output = U<49>;
    const VALUE: usize = 49;

    proof fn lemma_output() {
    }
}

impl TypeAdd<U<31>> for U<19> {
    type Output = U<50>;
    const VALUE: usize = 50;

    proof fn lemma_output() {
    }
}

impl TypeAdd<U<0>> for U<20> {
    type Output = U<20>;
    const VALUE: usize = 20;

    proof fn lemma_output() {
    }
}

impl TypeAdd<U<1>> for U<20> {
    type Output = U<21>;
    const VALUE: usize = 21;

    proof fn lemma_output() {
    }
}

impl TypeAdd<U<2>> for U<20> {
    type Output = U<22>;
    const VALUE: usize = 22;

    proof fn lemma_output() {
    }
}

impl TypeAdd<U<3>> for U<20> {
    type Output = U<23>;
    const VALUE: usize = 23;

    proof fn lemma_output() {
    }
}

impl TypeAdd<U<4>> for U<20> {
    type Output = U<24>;
    const VALUE: usize = 24;

    proof fn lemma_output() {
    }
}

impl TypeAdd<U<5>> for U<20> {
    type Output = U<25>;
    const VALUE: usize = 25;

    proof fn lemma_output() {
    }
}

impl TypeAdd<U<6>> for U<20> {
    type Output = U<26>;
    const VALUE: usize = 26;

    proof fn lemma_output() {
    }
}

impl TypeAdd<U<7>> for U<20> {
    type Output = U<27>;
    const VALUE: usize = 27;

    proof fn lemma_output() {
    }
}

impl TypeAdd<U<8>> for U<20> {
    type Output = U<28>;
    const VALUE: usize = 28;

    proof fn lemma_output() {
    }
}

impl TypeAdd<U<9>> for U<20> {
    type Output = U<29>;
    const VALUE: usize = 29;

    proof fn lemma_output() {
    }
}

impl TypeAdd<U<10>> for U<20> {
    type Output = U<30>;
    const VALUE: usize = 30;

    proof fn lemma_output() {
    }
}

impl TypeAdd<U<11>> for U<20> {
    type Output = U<31>;
    const VALUE: usize = 31;

    proof fn lemma_output() {
    }
}

impl TypeAdd<U<12>> for U<20> {
    type Output = U<32>;
    const VALUE: usize = 32;

    proof fn lemma_output() {
    }
}

impl TypeAdd<U<13>> for U<20> {
    type Output = U<33>;
    const VALUE: usize = 33;

    proof fn lemma_output() {
    }
}

impl TypeAdd<U<14>> for U<20> {
    type Output = U<34>;
    const VALUE: usize = 34;

    proof fn lemma_output() {
    }
}

impl TypeAdd<U<15>> for U<20> {
    type Output = U<35>;
    const VALUE: usize = 35;

    proof fn lemma_output() {
    }
}

impl TypeAdd<U<16>> for U<20> {
    type Output = U<36>;
    const VALUE: usize = 36;

    proof fn lemma_output() {
    }
}

impl TypeAdd<U<17>> for U<20> {
    type Output = U<37>;
    const VALUE: usize = 37;

    proof fn lemma_output() {
    }
}

impl TypeAdd<U<18>> for U<20> {
    type Output = U<38>;
    const VALUE: usize = 38;

    proof fn lemma_output() {
    }
}

impl TypeAdd<U<19>> for U<20> {
    type Output = U<39>;
    const VALUE: usize = 39;

    proof fn lemma_output() {
    }
}

impl TypeAdd<U<20>> for U<20> {
    type Output = U<40>;
    const VALUE: usize = 40;

    proof fn lemma_output() {
    }
}

impl TypeAdd<U<21>> for U<20> {
    type Output = U<41>;
    const VALUE: usize = 41;

    proof fn lemma_output() {
    }
}

impl TypeAdd<U<22>> for U<20> {
    type Output = U<42>;
    const VALUE: usize = 42;

    proof fn lemma_output() {
    }
}

impl TypeAdd<U<23>> for U<20> {
    type Output = U<43>;
    const VALUE: usize = 43;

    proof fn lemma_output() {
    }
}

impl TypeAdd<U<24>> for U<20> {
    type Output = U<44>;
    const VALUE: usize = 44;

    proof fn lemma_output() {
    }
}

impl TypeAdd<U<25>> for U<20> {
    type Output = U<45>;
    const VALUE: usize = 45;

    proof fn lemma_output() {
    }
}

impl TypeAdd<U<26>> for U<20> {
    type Output = U<46>;
    const VALUE: usize = 46;

    proof fn lemma_output() {
    }
}

impl TypeAdd<U<27>> for U<20> {
    type Output = U<47>;
    const VALUE: usize = 47;

    proof fn lemma_output() {
    }
}

impl TypeAdd<U<28>> for U<20> {
    type Output = U<48>;
    const VALUE: usize = 48;

    proof fn lemma_output() {
    }
}

impl TypeAdd<U<29>> for U<20> {
    type Output = U<49>;
    const VALUE: usize = 49;

    proof fn lemma_output() {
    }
}

impl TypeAdd<U<30>> for U<20> {
    type Output = U<50>;
    const VALUE: usize = 50;

    proof fn lemma_output() {
    }
}

impl TypeAdd<U<31>> for U<20> {
    type Output = U<51>;
    const VALUE: usize = 51;

    proof fn lemma_output() {
    }
}

impl TypeAdd<U<0>> for U<21> {
    type Output = U<21>;
    const VALUE: usize = 21;

    proof fn lemma_output() {
    }
}

impl TypeAdd<U<1>> for U<21> {
    type Output = U<22>;
    const VALUE: usize = 22;

    proof fn lemma_output() {
    }
}

impl TypeAdd<U<2>> for U<21> {
    type Output = U<23>;
    const VALUE: usize = 23;

    proof fn lemma_output() {
    }
}

impl TypeAdd<U<3>> for U<21> {
    type Output = U<24>;
    const VALUE: usize = 24;

    proof fn lemma_output() {
    }
}

impl TypeAdd<U<4>> for U<21> {
    type Output = U<25>;
    const VALUE: usize = 25;

    proof fn lemma_output() {
    }
}

impl TypeAdd<U<5>> for U<21> {
    type Output = U<26>;
    const VALUE: usize = 26;

    proof fn lemma_output() {
    }
}

impl TypeAdd<U<6>> for U<21> {
    type Output = U<27>;
    const VALUE: usize = 27;

    proof fn lemma_output() {
    }
}

impl TypeAdd<U<7>> for U<21> {
    type Output = U<28>;
    const VALUE: usize = 28;

    proof fn lemma_output() {
    }
}

impl TypeAdd<U<8>> for U<21> {
    type Output = U<29>;
    const VALUE: usize = 29;

    proof fn lemma_output() {
    }
}

impl TypeAdd<U<9>> for U<21> {
    type Output = U<30>;
    const VALUE: usize = 30;

    proof fn lemma_output() {
    }
}

impl TypeAdd<U<10>> for U<21> {
    type Output = U<31>;
    const VALUE: usize = 31;

    proof fn lemma_output() {
    }
}

impl TypeAdd<U<11>> for U<21> {
    type Output = U<32>;
    const VALUE: usize = 32;

    proof fn lemma_output() {
    }
}

impl TypeAdd<U<12>> for U<21> {
    type Output = U<33>;
    const VALUE: usize = 33;

    proof fn lemma_output() {
    }
}

impl TypeAdd<U<13>> for U<21> {
    type Output = U<34>;
    const VALUE: usize = 34;

    proof fn lemma_output() {
    }
}

impl TypeAdd<U<14>> for U<21> {
    type Output = U<35>;
    const VALUE: usize = 35;

    proof fn lemma_output() {
    }
}

impl TypeAdd<U<15>> for U<21> {
    type Output = U<36>;
    const VALUE: usize = 36;

    proof fn lemma_output() {
    }
}

impl TypeAdd<U<16>> for U<21> {
    type Output = U<37>;
    const VALUE: usize = 37;

    proof fn lemma_output() {
    }
}

impl TypeAdd<U<17>> for U<21> {
    type Output = U<38>;
    const VALUE: usize = 38;

    proof fn lemma_output() {
    }
}

impl TypeAdd<U<18>> for U<21> {
    type Output = U<39>;
    const VALUE: usize = 39;

    proof fn lemma_output() {
    }
}

impl TypeAdd<U<19>> for U<21> {
    type Output = U<40>;
    const VALUE: usize = 40;

    proof fn lemma_output() {
    }
}

impl TypeAdd<U<20>> for U<21> {
    type Output = U<41>;
    const VALUE: usize = 41;

    proof fn lemma_output() {
    }
}

impl TypeAdd<U<21>> for U<21> {
    type Output = U<42>;
    const VALUE: usize = 42;

    proof fn lemma_output() {
    }
}

impl TypeAdd<U<22>> for U<21> {
    type Output = U<43>;
    const VALUE: usize = 43;

    proof fn lemma_output() {
    }
}

impl TypeAdd<U<23>> for U<21> {
    type Output = U<44>;
    const VALUE: usize = 44;

    proof fn lemma_output() {
    }
}

impl TypeAdd<U<24>> for U<21> {
    type Output = U<45>;
    const VALUE: usize = 45;

    proof fn lemma_output() {
    }
}

impl TypeAdd<U<25>> for U<21> {
    type Output = U<46>;
    const VALUE: usize = 46;

    proof fn lemma_output() {
    }
}

impl TypeAdd<U<26>> for U<21> {
    type Output = U<47>;
    const VALUE: usize = 47;

    proof fn lemma_output() {
    }
}

impl TypeAdd<U<27>> for U<21> {
    type Output = U<48>;
    const VALUE: usize = 48;

    proof fn lemma_output() {
    }
}

impl TypeAdd<U<28>> for U<21> {
    type Output = U<49>;
    const VALUE: usize = 49;

    proof fn lemma_output() {
    }
}

impl TypeAdd<U<29>> for U<21> {
    type Output = U<50>;
    const VALUE: usize = 50;

    proof fn lemma_output() {
    }
}

impl TypeAdd<U<30>> for U<21> {
    type Output = U<51>;
    const VALUE: usize = 51;

    proof fn lemma_output() {
    }
}

impl TypeAdd<U<31>> for U<21> {
    type Output = U<52>;
    const VALUE: usize = 52;

    proof fn lemma_output() {
    }
}

impl TypeAdd<U<0>> for U<22> {
    type Output = U<22>;
    const VALUE: usize = 22;

    proof fn lemma_output() {
    }
}

impl TypeAdd<U<1>> for U<22> {
    type Output = U<23>;
    const VALUE: usize = 23;

    proof fn lemma_output() {
    }
}

impl TypeAdd<U<2>> for U<22> {
    type Output = U<24>;
    const VALUE: usize = 24;

    proof fn lemma_output() {
    }
}

impl TypeAdd<U<3>> for U<22> {
    type Output = U<25>;
    const VALUE: usize = 25;

    proof fn lemma_output() {
    }
}

impl TypeAdd<U<4>> for U<22> {
    type Output = U<26>;
    const VALUE: usize = 26;

    proof fn lemma_output() {
    }
}

impl TypeAdd<U<5>> for U<22> {
    type Output = U<27>;
    const VALUE: usize = 27;

    proof fn lemma_output() {
    }
}

impl TypeAdd<U<6>> for U<22> {
    type Output = U<28>;
    const VALUE: usize = 28;

    proof fn lemma_output() {
    }
}

impl TypeAdd<U<7>> for U<22> {
    type Output = U<29>;
    const VALUE: usize = 29;

    proof fn lemma_output() {
    }
}

impl TypeAdd<U<8>> for U<22> {
    type Output = U<30>;
    const VALUE: usize = 30;

    proof fn lemma_output() {
    }
}

impl TypeAdd<U<9>> for U<22> {
    type Output = U<31>;
    const VALUE: usize = 31;

    proof fn lemma_output() {
    }
}

impl TypeAdd<U<10>> for U<22> {
    type Output = U<32>;
    const VALUE: usize = 32;

    proof fn lemma_output() {
    }
}

impl TypeAdd<U<11>> for U<22> {
    type Output = U<33>;
    const VALUE: usize = 33;

    proof fn lemma_output() {
    }
}

impl TypeAdd<U<12>> for U<22> {
    type Output = U<34>;
    const VALUE: usize = 34;

    proof fn lemma_output() {
    }
}

impl TypeAdd<U<13>> for U<22> {
    type Output = U<35>;
    const VALUE: usize = 35;

    proof fn lemma_output() {
    }
}

impl TypeAdd<U<14>> for U<22> {
    type Output = U<36>;
    const VALUE: usize = 36;

    proof fn lemma_output() {
    }
}

impl TypeAdd<U<15>> for U<22> {
    type Output = U<37>;
    const VALUE: usize = 37;

    proof fn lemma_output() {
    }
}

impl TypeAdd<U<16>> for U<22> {
    type Output = U<38>;
    const VALUE: usize = 38;

    proof fn lemma_output() {
    }
}

impl TypeAdd<U<17>> for U<22> {
    type Output = U<39>;
    const VALUE: usize = 39;

    proof fn lemma_output() {
    }
}

impl TypeAdd<U<18>> for U<22> {
    type Output = U<40>;
    const VALUE: usize = 40;

    proof fn lemma_output() {
    }
}

impl TypeAdd<U<19>> for U<22> {
    type Output = U<41>;
    const VALUE: usize = 41;

    proof fn lemma_output() {
    }
}

impl TypeAdd<U<20>> for U<22> {
    type Output = U<42>;
    const VALUE: usize = 42;

    proof fn lemma_output() {
    }
}

impl TypeAdd<U<21>> for U<22> {
    type Output = U<43>;
    const VALUE: usize = 43;

    proof fn lemma_output() {
    }
}

impl TypeAdd<U<22>> for U<22> {
    type Output = U<44>;
    const VALUE: usize = 44;

    proof fn lemma_output() {
    }
}

impl TypeAdd<U<23>> for U<22> {
    type Output = U<45>;
    const VALUE: usize = 45;

    proof fn lemma_output() {
    }
}

impl TypeAdd<U<24>> for U<22> {
    type Output = U<46>;
    const VALUE: usize = 46;

    proof fn lemma_output() {
    }
}

impl TypeAdd<U<25>> for U<22> {
    type Output = U<47>;
    const VALUE: usize = 47;

    proof fn lemma_output() {
    }
}

impl TypeAdd<U<26>> for U<22> {
    type Output = U<48>;
    const VALUE: usize = 48;

    proof fn lemma_output() {
    }
}

impl TypeAdd<U<27>> for U<22> {
    type Output = U<49>;
    const VALUE: usize = 49;

    proof fn lemma_output() {
    }
}

impl TypeAdd<U<28>> for U<22> {
    type Output = U<50>;
    const VALUE: usize = 50;

    proof fn lemma_output() {
    }
}

impl TypeAdd<U<29>> for U<22> {
    type Output = U<51>;
    const VALUE: usize = 51;

    proof fn lemma_output() {
    }
}

impl TypeAdd<U<30>> for U<22> {
    type Output = U<52>;
    const VALUE: usize = 52;

    proof fn lemma_output() {
    }
}

impl TypeAdd<U<31>> for U<22> {
    type Output = U<53>;
    const VALUE: usize = 53;

    proof fn lemma_output() {
    }
}

impl TypeAdd<U<0>> for U<23> {
    type Output = U<23>;
    const VALUE: usize = 23;

    proof fn lemma_output() {
    }
}

impl TypeAdd<U<1>> for U<23> {
    type Output = U<24>;
    const VALUE: usize = 24;

    proof fn lemma_output() {
    }
}

impl TypeAdd<U<2>> for U<23> {
    type Output = U<25>;
    const VALUE: usize = 25;

    proof fn lemma_output() {
    }
}

impl TypeAdd<U<3>> for U<23> {
    type Output = U<26>;
    const VALUE: usize = 26;

    proof fn lemma_output() {
    }
}

impl TypeAdd<U<4>> for U<23> {
    type Output = U<27>;
    const VALUE: usize = 27;

    proof fn lemma_output() {
    }
}

impl TypeAdd<U<5>> for U<23> {
    type Output = U<28>;
    const VALUE: usize = 28;

    proof fn lemma_output() {
    }
}

impl TypeAdd<U<6>> for U<23> {
    type Output = U<29>;
    const VALUE: usize = 29;

    proof fn lemma_output() {
    }
}

impl TypeAdd<U<7>> for U<23> {
    type Output = U<30>;
    const VALUE: usize = 30;

    proof fn lemma_output() {
    }
}

impl TypeAdd<U<8>> for U<23> {
    type Output = U<31>;
    const VALUE: usize = 31;

    proof fn lemma_output() {
    }
}

impl TypeAdd<U<9>> for U<23> {
    type Output = U<32>;
    const VALUE: usize = 32;

    proof fn lemma_output() {
    }
}

impl TypeAdd<U<10>> for U<23> {
    type Output = U<33>;
    const VALUE: usize = 33;

    proof fn lemma_output() {
    }
}

impl TypeAdd<U<11>> for U<23> {
    type Output = U<34>;
    const VALUE: usize = 34;

    proof fn lemma_output() {
    }
}

impl TypeAdd<U<12>> for U<23> {
    type Output = U<35>;
    const VALUE: usize = 35;

    proof fn lemma_output() {
    }
}

impl TypeAdd<U<13>> for U<23> {
    type Output = U<36>;
    const VALUE: usize = 36;

    proof fn lemma_output() {
    }
}

impl TypeAdd<U<14>> for U<23> {
    type Output = U<37>;
    const VALUE: usize = 37;

    proof fn lemma_output() {
    }
}

impl TypeAdd<U<15>> for U<23> {
    type Output = U<38>;
    const VALUE: usize = 38;

    proof fn lemma_output() {
    }
}

impl TypeAdd<U<16>> for U<23> {
    type Output = U<39>;
    const VALUE: usize = 39;

    proof fn lemma_output() {
    }
}

impl TypeAdd<U<17>> for U<23> {
    type Output = U<40>;
    const VALUE: usize = 40;

    proof fn lemma_output() {
    }
}

impl TypeAdd<U<18>> for U<23> {
    type Output = U<41>;
    const VALUE: usize = 41;

    proof fn lemma_output() {
    }
}

impl TypeAdd<U<19>> for U<23> {
    type Output = U<42>;
    const VALUE: usize = 42;

    proof fn lemma_output() {
    }
}

impl TypeAdd<U<20>> for U<23> {
    type Output = U<43>;
    const VALUE: usize = 43;

    proof fn lemma_output() {
    }
}

impl TypeAdd<U<21>> for U<23> {
    type Output = U<44>;
    const VALUE: usize = 44;

    proof fn lemma_output() {
    }
}

impl TypeAdd<U<22>> for U<23> {
    type Output = U<45>;
    const VALUE: usize = 45;

    proof fn lemma_output() {
    }
}

impl TypeAdd<U<23>> for U<23> {
    type Output = U<46>;
    const VALUE: usize = 46;

    proof fn lemma_output() {
    }
}

impl TypeAdd<U<24>> for U<23> {
    type Output = U<47>;
    const VALUE: usize = 47;

    proof fn lemma_output() {
    }
}

impl TypeAdd<U<25>> for U<23> {
    type Output = U<48>;
    const VALUE: usize = 48;

    proof fn lemma_output() {
    }
}

impl TypeAdd<U<26>> for U<23> {
    type Output = U<49>;
    const VALUE: usize = 49;

    proof fn lemma_output() {
    }
}

impl TypeAdd<U<27>> for U<23> {
    type Output = U<50>;
    const VALUE: usize = 50;

    proof fn lemma_output() {
    }
}

impl TypeAdd<U<28>> for U<23> {
    type Output = U<51>;
    const VALUE: usize = 51;

    proof fn lemma_output() {
    }
}

impl TypeAdd<U<29>> for U<23> {
    type Output = U<52>;
    const VALUE: usize = 52;

    proof fn lemma_output() {
    }
}

impl TypeAdd<U<30>> for U<23> {
    type Output = U<53>;
    const VALUE: usize = 53;

    proof fn lemma_output() {
    }
}

impl TypeAdd<U<31>> for U<23> {
    type Output = U<54>;
    const VALUE: usize = 54;

    proof fn lemma_output() {
    }
}

impl TypeAdd<U<0>> for U<24> {
    type Output = U<24>;
    const VALUE: usize = 24;

    proof fn lemma_output() {
    }
}

impl TypeAdd<U<1>> for U<24> {
    type Output = U<25>;
    const VALUE: usize = 25;

    proof fn lemma_output() {
    }
}

impl TypeAdd<U<2>> for U<24> {
    type Output = U<26>;
    const VALUE: usize = 26;

    proof fn lemma_output() {
    }
}

impl TypeAdd<U<3>> for U<24> {
    type Output = U<27>;
    const VALUE: usize = 27;

    proof fn lemma_output() {
    }
}

impl TypeAdd<U<4>> for U<24> {
    type Output = U<28>;
    const VALUE: usize = 28;

    proof fn lemma_output() {
    }
}

impl TypeAdd<U<5>> for U<24> {
    type Output = U<29>;
    const VALUE: usize = 29;

    proof fn lemma_output() {
    }
}

impl TypeAdd<U<6>> for U<24> {
    type Output = U<30>;
    const VALUE: usize = 30;

    proof fn lemma_output() {
    }
}

impl TypeAdd<U<7>> for U<24> {
    type Output = U<31>;
    const VALUE: usize = 31;

    proof fn lemma_output() {
    }
}

impl TypeAdd<U<8>> for U<24> {
    type Output = U<32>;
    const VALUE: usize = 32;

    proof fn lemma_output() {
    }
}

impl TypeAdd<U<9>> for U<24> {
    type Output = U<33>;
    const VALUE: usize = 33;

    proof fn lemma_output() {
    }
}

impl TypeAdd<U<10>> for U<24> {
    type Output = U<34>;
    const VALUE: usize = 34;

    proof fn lemma_output() {
    }
}

impl TypeAdd<U<11>> for U<24> {
    type Output = U<35>;
    const VALUE: usize = 35;

    proof fn lemma_output() {
    }
}

impl TypeAdd<U<12>> for U<24> {
    type Output = U<36>;
    const VALUE: usize = 36;

    proof fn lemma_output() {
    }
}

impl TypeAdd<U<13>> for U<24> {
    type Output = U<37>;
    const VALUE: usize = 37;

    proof fn lemma_output() {
    }
}

impl TypeAdd<U<14>> for U<24> {
    type Output = U<38>;
    const VALUE: usize = 38;

    proof fn lemma_output() {
    }
}

impl TypeAdd<U<15>> for U<24> {
    type Output = U<39>;
    const VALUE: usize = 39;

    proof fn lemma_output() {
    }
}

impl TypeAdd<U<16>> for U<24> {
    type Output = U<40>;
    const VALUE: usize = 40;

    proof fn lemma_output() {
    }
}

impl TypeAdd<U<17>> for U<24> {
    type Output = U<41>;
    const VALUE: usize = 41;

    proof fn lemma_output() {
    }
}

impl TypeAdd<U<18>> for U<24> {
    type Output = U<42>;
    const VALUE: usize = 42;

    proof fn lemma_output() {
    }
}

impl TypeAdd<U<19>> for U<24> {
    type Output = U<43>;
    const VALUE: usize = 43;

    proof fn lemma_output() {
    }
}

impl TypeAdd<U<20>> for U<24> {
    type Output = U<44>;
    const VALUE: usize = 44;

    proof fn lemma_output() {
    }
}

impl TypeAdd<U<21>> for U<24> {
    type Output = U<45>;
    const VALUE: usize = 45;

    proof fn lemma_output() {
    }
}

impl TypeAdd<U<22>> for U<24> {
    type Output = U<46>;
    const VALUE: usize = 46;

    proof fn lemma_output() {
    }
}

impl TypeAdd<U<23>> for U<24> {
    type Output = U<47>;
    const VALUE: usize = 47;

    proof fn lemma_output() {
    }
}

impl TypeAdd<U<24>> for U<24> {
    type Output = U<48>;
    const VALUE: usize = 48;

    proof fn lemma_output() {
    }
}

impl TypeAdd<U<25>> for U<24> {
    type Output = U<49>;
    const VALUE: usize = 49;

    proof fn lemma_output() {
    }
}

impl TypeAdd<U<26>> for U<24> {
    type Output = U<50>;
    const VALUE: usize = 50;

    proof fn lemma_output() {
    }
}

impl TypeAdd<U<27>> for U<24> {
    type Output = U<51>;
    const VALUE: usize = 51;

    proof fn lemma_output() {
    }
}

impl TypeAdd<U<28>> for U<24> {
    type Output = U<52>;
    const VALUE: usize = 52;

    proof fn lemma_output() {
    }
}

impl TypeAdd<U<29>> for U<24> {
    type Output = U<53>;
    const VALUE: usize = 53;

    proof fn lemma_output() {
    }
}

impl TypeAdd<U<30>> for U<24> {
    type Output = U<54>;
    const VALUE: usize = 54;

    proof fn lemma_output() {
    }
}

impl TypeAdd<U<31>> for U<24> {
    type Output = U<55>;
    const VALUE: usize = 55;

    proof fn lemma_output() {
    }
}

impl TypeAdd<U<0>> for U<25> {
    type Output = U<25>;
    const VALUE: usize = 25;

    proof fn lemma_output() {
    }
}

impl TypeAdd<U<1>> for U<25> {
    type Output = U<26>;
    const VALUE: usize = 26;

    proof fn lemma_output() {
    }
}

impl TypeAdd<U<2>> for U<25> {
    type Output = U<27>;
    const VALUE: usize = 27;

    proof fn lemma_output() {
    }
}

impl TypeAdd<U<3>> for U<25> {
    type Output = U<28>;
    const VALUE: usize = 28;

    proof fn lemma_output() {
    }
}

impl TypeAdd<U<4>> for U<25> {
    type Output = U<29>;
    const VALUE: usize = 29;

    proof fn lemma_output() {
    }
}

impl TypeAdd<U<5>> for U<25> {
    type Output = U<30>;
    const VALUE: usize = 30;

    proof fn lemma_output() {
    }
}

impl TypeAdd<U<6>> for U<25> {
    type Output = U<31>;
    const VALUE: usize = 31;

    proof fn lemma_output() {
    }
}

impl TypeAdd<U<7>> for U<25> {
    type Output = U<32>;
    const VALUE: usize = 32;

    proof fn lemma_output() {
    }
}

impl TypeAdd<U<8>> for U<25> {
    type Output = U<33>;
    const VALUE: usize = 33;

    proof fn lemma_output() {
    }
}

impl TypeAdd<U<9>> for U<25> {
    type Output = U<34>;
    const VALUE: usize = 34;

    proof fn lemma_output() {
    }
}

impl TypeAdd<U<10>> for U<25> {
    type Output = U<35>;
    const VALUE: usize = 35;

    proof fn lemma_output() {
    }
}

impl TypeAdd<U<11>> for U<25> {
    type Output = U<36>;
    const VALUE: usize = 36;

    proof fn lemma_output() {
    }
}

impl TypeAdd<U<12>> for U<25> {
    type Output = U<37>;
    const VALUE: usize = 37;

    proof fn lemma_output() {
    }
}

impl TypeAdd<U<13>> for U<25> {
    type Output = U<38>;
    const VALUE: usize = 38;

    proof fn lemma_output() {
    }
}

impl TypeAdd<U<14>> for U<25> {
    type Output = U<39>;
    const VALUE: usize = 39;

    proof fn lemma_output() {
    }
}

impl TypeAdd<U<15>> for U<25> {
    type Output = U<40>;
    const VALUE: usize = 40;

    proof fn lemma_output() {
    }
}

impl TypeAdd<U<16>> for U<25> {
    type Output = U<41>;
    const VALUE: usize = 41;

    proof fn lemma_output() {
    }
}

impl TypeAdd<U<17>> for U<25> {
    type Output = U<42>;
    const VALUE: usize = 42;

    proof fn lemma_output() {
    }
}

impl TypeAdd<U<18>> for U<25> {
    type Output = U<43>;
    const VALUE: usize = 43;

    proof fn lemma_output() {
    }
}

impl TypeAdd<U<19>> for U<25> {
    type Output = U<44>;
    const VALUE: usize = 44;

    proof fn lemma_output() {
    }
}

impl TypeAdd<U<20>> for U<25> {
    type Output = U<45>;
    const VALUE: usize = 45;

    proof fn lemma_output() {
    }
}

impl TypeAdd<U<21>> for U<25> {
    type Output = U<46>;
    const VALUE: usize = 46;

    proof fn lemma_output() {
    }
}

impl TypeAdd<U<22>> for U<25> {
    type Output = U<47>;
    const VALUE: usize = 47;

    proof fn lemma_output() {
    }
}

impl TypeAdd<U<23>> for U<25> {
    type Output = U<48>;
    const VALUE: usize = 48;

    proof fn lemma_output() {
    }
}

impl TypeAdd<U<24>> for U<25> {
    type Output = U<49>;
    const VALUE: usize = 49;

    proof fn lemma_output() {
    }
}

impl TypeAdd<U<25>> for U<25> {
    type Output = U<50>;
    const VALUE: usize = 50;

    proof fn lemma_output() {
    }
}

impl TypeAdd<U<26>> for U<25> {
    type Output = U<51>;
    const VALUE: usize = 51;

    proof fn lemma_output() {
    }
}

impl TypeAdd<U<27>> for U<25> {
    type Output = U<52>;
    const VALUE: usize = 52;

    proof fn lemma_output() {
    }
}

impl TypeAdd<U<28>> for U<25> {
    type Output = U<53>;
    const VALUE: usize = 53;

    proof fn lemma_output() {
    }
}

impl TypeAdd<U<29>> for U<25> {
    type Output = U<54>;
    const VALUE: usize = 54;

    proof fn lemma_output() {
    }
}

impl TypeAdd<U<30>> for U<25> {
    type Output = U<55>;
    const VALUE: usize = 55;

    proof fn lemma_output() {
    }
}

impl TypeAdd<U<31>> for U<25> {
    type Output = U<56>;
    const VALUE: usize = 56;

    proof fn lemma_output() {
    }
}

impl TypeAdd<U<0>> for U<26> {
    type Output = U<26>;
    const VALUE: usize = 26;

    proof fn lemma_output() {
    }
}

impl TypeAdd<U<1>> for U<26> {
    type Output = U<27>;
    const VALUE: usize = 27;

    proof fn lemma_output() {
    }
}

impl TypeAdd<U<2>> for U<26> {
    type Output = U<28>;
    const VALUE: usize = 28;

    proof fn lemma_output() {
    }
}

impl TypeAdd<U<3>> for U<26> {
    type Output = U<29>;
    const VALUE: usize = 29;

    proof fn lemma_output() {
    }
}

impl TypeAdd<U<4>> for U<26> {
    type Output = U<30>;
    const VALUE: usize = 30;

    proof fn lemma_output() {
    }
}

impl TypeAdd<U<5>> for U<26> {
    type Output = U<31>;
    const VALUE: usize = 31;

    proof fn lemma_output() {
    }
}

impl TypeAdd<U<6>> for U<26> {
    type Output = U<32>;
    const VALUE: usize = 32;

    proof fn lemma_output() {
    }
}

impl TypeAdd<U<7>> for U<26> {
    type Output = U<33>;
    const VALUE: usize = 33;

    proof fn lemma_output() {
    }
}

impl TypeAdd<U<8>> for U<26> {
    type Output = U<34>;
    const VALUE: usize = 34;

    proof fn lemma_output() {
    }
}

impl TypeAdd<U<9>> for U<26> {
    type Output = U<35>;
    const VALUE: usize = 35;

    proof fn lemma_output() {
    }
}

impl TypeAdd<U<10>> for U<26> {
    type Output = U<36>;
    const VALUE: usize = 36;

    proof fn lemma_output() {
    }
}

impl TypeAdd<U<11>> for U<26> {
    type Output = U<37>;
    const VALUE: usize = 37;

    proof fn lemma_output() {
    }
}

impl TypeAdd<U<12>> for U<26> {
    type Output = U<38>;
    const VALUE: usize = 38;

    proof fn lemma_output() {
    }
}

impl TypeAdd<U<13>> for U<26> {
    type Output = U<39>;
    const VALUE: usize = 39;

    proof fn lemma_output() {
    }
}

impl TypeAdd<U<14>> for U<26> {
    type Output = U<40>;
    const VALUE: usize = 40;

    proof fn lemma_output() {
    }
}

impl TypeAdd<U<15>> for U<26> {
    type Output = U<41>;
    const VALUE: usize = 41;

    proof fn lemma_output() {
    }
}

impl TypeAdd<U<16>> for U<26> {
    type Output = U<42>;
    const VALUE: usize = 42;

    proof fn lemma_output() {
    }
}

impl TypeAdd<U<17>> for U<26> {
    type Output = U<43>;
    const VALUE: usize = 43;

    proof fn lemma_output() {
    }
}

impl TypeAdd<U<18>> for U<26> {
    type Output = U<44>;
    const VALUE: usize = 44;

    proof fn lemma_output() {
    }
}

impl TypeAdd<U<19>> for U<26> {
    type Output = U<45>;
    const VALUE: usize = 45;

    proof fn lemma_output() {
    }
}

impl TypeAdd<U<20>> for U<26> {
    type Output = U<46>;
    const VALUE: usize = 46;

    proof fn lemma_output() {
    }
}

impl TypeAdd<U<21>> for U<26> {
    type Output = U<47>;
    const VALUE: usize = 47;

    proof fn lemma_output() {
    }
}

impl TypeAdd<U<22>> for U<26> {
    type Output = U<48>;
    const VALUE: usize = 48;

    proof fn lemma_output() {
    }
}

impl TypeAdd<U<23>> for U<26> {
    type Output = U<49>;
    const VALUE: usize = 49;

    proof fn lemma_output() {
    }
}

impl TypeAdd<U<24>> for U<26> {
    type Output = U<50>;
    const VALUE: usize = 50;

    proof fn lemma_output() {
    }
}

impl TypeAdd<U<25>> for U<26> {
    type Output = U<51>;
    const VALUE: usize = 51;

    proof fn lemma_output() {
    }
}

impl TypeAdd<U<26>> for U<26> {
    type Output = U<52>;
    const VALUE: usize = 52;

    proof fn lemma_output() {
    }
}

impl TypeAdd<U<27>> for U<26> {
    type Output = U<53>;
    const VALUE: usize = 53;

    proof fn lemma_output() {
    }
}

impl TypeAdd<U<28>> for U<26> {
    type Output = U<54>;
    const VALUE: usize = 54;

    proof fn lemma_output() {
    }
}

impl TypeAdd<U<29>> for U<26> {
    type Output = U<55>;
    const VALUE: usize = 55;

    proof fn lemma_output() {
    }
}

impl TypeAdd<U<30>> for U<26> {
    type Output = U<56>;
    const VALUE: usize = 56;

    proof fn lemma_output() {
    }
}

impl TypeAdd<U<31>> for U<26> {
    type Output = U<57>;
    const VALUE: usize = 57;

    proof fn lemma_output() {
    }
}

impl TypeAdd<U<0>> for U<27> {
    type Output = U<27>;
    const VALUE: usize = 27;

    proof fn lemma_output() {
    }
}

impl TypeAdd<U<1>> for U<27> {
    type Output = U<28>;
    const VALUE: usize = 28;

    proof fn lemma_output() {
    }
}

impl TypeAdd<U<2>> for U<27> {
    type Output = U<29>;
    const VALUE: usize = 29;

    proof fn lemma_output() {
    }
}

impl TypeAdd<U<3>> for U<27> {
    type Output = U<30>;
    const VALUE: usize = 30;

    proof fn lemma_output() {
    }
}

impl TypeAdd<U<4>> for U<27> {
    type Output = U<31>;
    const VALUE: usize = 31;

    proof fn lemma_output() {
    }
}

impl TypeAdd<U<5>> for U<27> {
    type Output = U<32>;
    const VALUE: usize = 32;

    proof fn lemma_output() {
    }
}

impl TypeAdd<U<6>> for U<27> {
    type Output = U<33>;
    const VALUE: usize = 33;

    proof fn lemma_output() {
    }
}

impl TypeAdd<U<7>> for U<27> {
    type Output = U<34>;
    const VALUE: usize = 34;

    proof fn lemma_output() {
    }
}

impl TypeAdd<U<8>> for U<27> {
    type Output = U<35>;
    const VALUE: usize = 35;

    proof fn lemma_output() {
    }
}

impl TypeAdd<U<9>> for U<27> {
    type Output = U<36>;
    const VALUE: usize = 36;

    proof fn lemma_output() {
    }
}

impl TypeAdd<U<10>> for U<27> {
    type Output = U<37>;
    const VALUE: usize = 37;

    proof fn lemma_output() {
    }
}

impl TypeAdd<U<11>> for U<27> {
    type Output = U<38>;
    const VALUE: usize = 38;

    proof fn lemma_output() {
    }
}

impl TypeAdd<U<12>> for U<27> {
    type Output = U<39>;
    const VALUE: usize = 39;

    proof fn lemma_output() {
    }
}

impl TypeAdd<U<13>> for U<27> {
    type Output = U<40>;
    const VALUE: usize = 40;

    proof fn lemma_output() {
    }
}

impl TypeAdd<U<14>> for U<27> {
    type Output = U<41>;
    const VALUE: usize = 41;

    proof fn lemma_output() {
    }
}

impl TypeAdd<U<15>> for U<27> {
    type Output = U<42>;
    const VALUE: usize = 42;

    proof fn lemma_output() {
    }
}

impl TypeAdd<U<16>> for U<27> {
    type Output = U<43>;
    const VALUE: usize = 43;

    proof fn lemma_output() {
    }
}

impl TypeAdd<U<17>> for U<27> {
    type Output = U<44>;
    const VALUE: usize = 44;

    proof fn lemma_output() {
    }
}

impl TypeAdd<U<18>> for U<27> {
    type Output = U<45>;
    const VALUE: usize = 45;

    proof fn lemma_output() {
    }
}

impl TypeAdd<U<19>> for U<27> {
    type Output = U<46>;
    const VALUE: usize = 46;

    proof fn lemma_output() {
    }
}

impl TypeAdd<U<20>> for U<27> {
    type Output = U<47>;
    const VALUE: usize = 47;

    proof fn lemma_output() {
    }
}

impl TypeAdd<U<21>> for U<27> {
    type Output = U<48>;
    const VALUE: usize = 48;

    proof fn lemma_output() {
    }
}

impl TypeAdd<U<22>> for U<27> {
    type Output = U<49>;
    const VALUE: usize = 49;

    proof fn lemma_output() {
    }
}

impl TypeAdd<U<23>> for U<27> {
    type Output = U<50>;
    const VALUE: usize = 50;

    proof fn lemma_output() {
    }
}

impl TypeAdd<U<24>> for U<27> {
    type Output = U<51>;
    const VALUE: usize = 51;

    proof fn lemma_output() {
    }
}

impl TypeAdd<U<25>> for U<27> {
    type Output = U<52>;
    const VALUE: usize = 52;

    proof fn lemma_output() {
    }
}

impl TypeAdd<U<26>> for U<27> {
    type Output = U<53>;
    const VALUE: usize = 53;

    proof fn lemma_output() {
    }
}

impl TypeAdd<U<27>> for U<27> {
    type Output = U<54>;
    const VALUE: usize = 54;

    proof fn lemma_output() {
    }
}

impl TypeAdd<U<28>> for U<27> {
    type Output = U<55>;
    const VALUE: usize = 55;

    proof fn lemma_output() {
    }
}

impl TypeAdd<U<29>> for U<27> {
    type Output = U<56>;
    const VALUE: usize = 56;

    proof fn lemma_output() {
    }
}

impl TypeAdd<U<30>> for U<27> {
    type Output = U<57>;
    const VALUE: usize = 57;

    proof fn lemma_output() {
    }
}

impl TypeAdd<U<31>> for U<27> {
    type Output = U<58>;
    const VALUE: usize = 58;

    proof fn lemma_output() {
    }
}

impl TypeAdd<U<0>> for U<28> {
    type Output = U<28>;
    const VALUE: usize = 28;

    proof fn lemma_output() {
    }
}

impl TypeAdd<U<1>> for U<28> {
    type Output = U<29>;
    const VALUE: usize = 29;

    proof fn lemma_output() {
    }
}

impl TypeAdd<U<2>> for U<28> {
    type Output = U<30>;
    const VALUE: usize = 30;

    proof fn lemma_output() {
    }
}

impl TypeAdd<U<3>> for U<28> {
    type Output = U<31>;
    const VALUE: usize = 31;

    proof fn lemma_output() {
    }
}

impl TypeAdd<U<4>> for U<28> {
    type Output = U<32>;
    const VALUE: usize = 32;

    proof fn lemma_output() {
    }
}

impl TypeAdd<U<5>> for U<28> {
    type Output = U<33>;
    const VALUE: usize = 33;

    proof fn lemma_output() {
    }
}

impl TypeAdd<U<6>> for U<28> {
    type Output = U<34>;
    const VALUE: usize = 34;

    proof fn lemma_output() {
    }
}

impl TypeAdd<U<7>> for U<28> {
    type Output = U<35>;
    const VALUE: usize = 35;

    proof fn lemma_output() {
    }
}

impl TypeAdd<U<8>> for U<28> {
    type Output = U<36>;
    const VALUE: usize = 36;

    proof fn lemma_output() {
    }
}

impl TypeAdd<U<9>> for U<28> {
    type Output = U<37>;
    const VALUE: usize = 37;

    proof fn lemma_output() {
    }
}

impl TypeAdd<U<10>> for U<28> {
    type Output = U<38>;
    const VALUE: usize = 38;

    proof fn lemma_output() {
    }
}

impl TypeAdd<U<11>> for U<28> {
    type Output = U<39>;
    const VALUE: usize = 39;

    proof fn lemma_output() {
    }
}

impl TypeAdd<U<12>> for U<28> {
    type Output = U<40>;
    const VALUE: usize = 40;

    proof fn lemma_output() {
    }
}

impl TypeAdd<U<13>> for U<28> {
    type Output = U<41>;
    const VALUE: usize = 41;

    proof fn lemma_output() {
    }
}

impl TypeAdd<U<14>> for U<28> {
    type Output = U<42>;
    const VALUE: usize = 42;

    proof fn lemma_output() {
    }
}

impl TypeAdd<U<15>> for U<28> {
    type Output = U<43>;
    const VALUE: usize = 43;

    proof fn lemma_output() {
    }
}

impl TypeAdd<U<16>> for U<28> {
    type Output = U<44>;
    const VALUE: usize = 44;

    proof fn lemma_output() {
    }
}

impl TypeAdd<U<17>> for U<28> {
    type Output = U<45>;
    const VALUE: usize = 45;

    proof fn lemma_output() {
    }
}

impl TypeAdd<U<18>> for U<28> {
    type Output = U<46>;
    const VALUE: usize = 46;

    proof fn lemma_output() {
    }
}

impl TypeAdd<U<19>> for U<28> {
    type Output = U<47>;
    const VALUE: usize = 47;

    proof fn lemma_output() {
    }
}

impl TypeAdd<U<20>> for U<28> {
    type Output = U<48>;
    const VALUE: usize = 48;

    proof fn lemma_output() {
    }
}

impl TypeAdd<U<21>> for U<28> {
    type Output = U<49>;
    const VALUE: usize = 49;

    proof fn lemma_output() {
    }
}

impl TypeAdd<U<22>> for U<28> {
    type Output = U<50>;
    const VALUE: usize = 50;

    proof fn lemma_output() {
    }
}

impl TypeAdd<U<23>> for U<28> {
    type Output = U<51>;
    const VALUE: usize = 51;

    proof fn lemma_output() {
    }
}

impl TypeAdd<U<24>> for U<28> {
    type Output = U<52>;
    const VALUE: usize = 52;

    proof fn lemma_output() {
    }
}

impl TypeAdd<U<25>> for U<28> {
    type Output = U<53>;
    const VALUE: usize = 53;

    proof fn lemma_output() {
    }
}

impl TypeAdd<U<26>> for U<28> {
    type Output = U<54>;
    const VALUE: usize = 54;

    proof fn lemma_output() {
    }
}

impl TypeAdd<U<27>> for U<28> {
    type Output = U<55>;
    const VALUE: usize = 55;

    proof fn lemma_output() {
    }
}

impl TypeAdd<U<28>> for U<28> {
    type Output = U<56>;
    const VALUE: usize = 56;

    proof fn lemma_output() {
    }
}

impl TypeAdd<U<29>> for U<28> {
    type Output = U<57>;
    const VALUE: usize = 57;

    proof fn lemma_output() {
    }
}

impl TypeAdd<U<30>> for U<28> {
    type Output = U<58>;
    const VALUE: usize = 58;

    proof fn lemma_output() {
    }
}

impl TypeAdd<U<31>> for U<28> {
    type Output = U<59>;
    const VALUE: usize = 59;

    proof fn lemma_output() {
    }
}

impl TypeAdd<U<0>> for U<29> {
    type Output = U<29>;
    const VALUE: usize = 29;

    proof fn lemma_output() {
    }
}

impl TypeAdd<U<1>> for U<29> {
    type Output = U<30>;
    const VALUE: usize = 30;

    proof fn lemma_output() {
    }
}

impl TypeAdd<U<2>> for U<29> {
    type Output = U<31>;
    const VALUE: usize = 31;

    proof fn lemma_output() {
    }
}

impl TypeAdd<U<3>> for U<29> {
    type Output = U<32>;
    const VALUE: usize = 32;

    proof fn lemma_output() {
    }
}

impl TypeAdd<U<4>> for U<29> {
    type Output = U<33>;
    const VALUE: usize = 33;

    proof fn lemma_output() {
    }
}

impl TypeAdd<U<5>> for U<29> {
    type Output = U<34>;
    const VALUE: usize = 34;

    proof fn lemma_output() {
    }
}

impl TypeAdd<U<6>> for U<29> {
    type Output = U<35>;
    const VALUE: usize = 35;

    proof fn lemma_output() {
    }
}

impl TypeAdd<U<7>> for U<29> {
    type Output = U<36>;
    const VALUE: usize = 36;

    proof fn lemma_output() {
    }
}

impl TypeAdd<U<8>> for U<29> {
    type Output = U<37>;
    const VALUE: usize = 37;

    proof fn lemma_output() {
    }
}

impl TypeAdd<U<9>> for U<29> {
    type Output = U<38>;
    const VALUE: usize = 38;

    proof fn lemma_output() {
    }
}

impl TypeAdd<U<10>> for U<29> {
    type Output = U<39>;
    const VALUE: usize = 39;

    proof fn lemma_output() {
    }
}

impl TypeAdd<U<11>> for U<29> {
    type Output = U<40>;
    const VALUE: usize = 40;

    proof fn lemma_output() {
    }
}

impl TypeAdd<U<12>> for U<29> {
    type Output = U<41>;
    const VALUE: usize = 41;

    proof fn lemma_output() {
    }
}

impl TypeAdd<U<13>> for U<29> {
    type Output = U<42>;
    const VALUE: usize = 42;

    proof fn lemma_output() {
    }
}

impl TypeAdd<U<14>> for U<29> {
    type Output = U<43>;
    const VALUE: usize = 43;

    proof fn lemma_output() {
    }
}

impl TypeAdd<U<15>> for U<29> {
    type Output = U<44>;
    const VALUE: usize = 44;

    proof fn lemma_output() {
    }
}

impl TypeAdd<U<16>> for U<29> {
    type Output = U<45>;
    const VALUE: usize = 45;

    proof fn lemma_output() {
    }
}

impl TypeAdd<U<17>> for U<29> {
    type Output = U<46>;
    const VALUE: usize = 46;

    proof fn lemma_output() {
    }
}

impl TypeAdd<U<18>> for U<29> {
    type Output = U<47>;
    const VALUE: usize = 47;

    proof fn lemma_output() {
    }
}

impl TypeAdd<U<19>> for U<29> {
    type Output = U<48>;
    const VALUE: usize = 48;

    proof fn lemma_output() {
    }
}

impl TypeAdd<U<20>> for U<29> {
    type Output = U<49>;
    const VALUE: usize = 49;

    proof fn lemma_output() {
    }
}

impl TypeAdd<U<21>> for U<29> {
    type Output = U<50>;
    const VALUE: usize = 50;

    proof fn lemma_output() {
    }
}

impl TypeAdd<U<22>> for U<29> {
    type Output = U<51>;
    const VALUE: usize = 51;

    proof fn lemma_output() {
    }
}

impl TypeAdd<U<23>> for U<29> {
    type Output = U<52>;
    const VALUE: usize = 52;

    proof fn lemma_output() {
    }
}

impl TypeAdd<U<24>> for U<29> {
    type Output = U<53>;
    const VALUE: usize = 53;

    proof fn lemma_output() {
    }
}

impl TypeAdd<U<25>> for U<29> {
    type Output = U<54>;
    const VALUE: usize = 54;

    proof fn lemma_output() {
    }
}

impl TypeAdd<U<26>> for U<29> {
    type Output = U<55>;
    const VALUE: usize = 55;

    proof fn lemma_output() {
    }
}

impl TypeAdd<U<27>> for U<29> {
    type Output = U<56>;
    const VALUE: usize = 56;

    proof fn lemma_output() {
    }
}

impl TypeAdd<U<28>> for U<29> {
    type Output = U<57>;
    const VALUE: usize = 57;

    proof fn lemma_output() {
    }
}

impl TypeAdd<U<29>> for U<29> {
    type Output = U<58>;
    const VALUE: usize = 58;

    proof fn lemma_output() {
    }
}

impl TypeAdd<U<30>> for U<29> {
    type Output = U<59>;
    const VALUE: usize = 59;

    proof fn lemma_output() {
    }
}

impl TypeAdd<U<31>> for U<29> {
    type Output = U<60>;
    const VALUE: usize = 60;

    proof fn lemma_output() {
    }
}

impl TypeAdd<U<0>> for U<30> {
    type Output = U<30>;
    const VALUE: usize = 30;

    proof fn lemma_output() {
    }
}

impl TypeAdd<U<1>> for U<30> {
    type Output = U<31>;
    const VALUE: usize = 31;

    proof fn lemma_output() {
    }
}

impl TypeAdd<U<2>> for U<30> {
    type Output = U<32>;
    const VALUE: usize = 32;

    proof fn lemma_output() {
    }
}

impl TypeAdd<U<3>> for U<30> {
    type Output = U<33>;
    const VALUE: usize = 33;

    proof fn lemma_output() {
    }
}

impl TypeAdd<U<4>> for U<30> {
    type Output = U<34>;
    const VALUE: usize = 34;

    proof fn lemma_output() {
    }
}

impl TypeAdd<U<5>> for U<30> {
    type Output = U<35>;
    const VALUE: usize = 35;

    proof fn lemma_output() {
    }
}

impl TypeAdd<U<6>> for U<30> {
    type Output = U<36>;
    const VALUE: usize = 36;

    proof fn lemma_output() {
    }
}

impl TypeAdd<U<7>> for U<30> {
    type Output = U<37>;
    const VALUE: usize = 37;

    proof fn lemma_output() {
    }
}

impl TypeAdd<U<8>> for U<30> {
    type Output = U<38>;
    const VALUE: usize = 38;

    proof fn lemma_output() {
    }
}

impl TypeAdd<U<9>> for U<30> {
    type Output = U<39>;
    const VALUE: usize = 39;

    proof fn lemma_output() {
    }
}

impl TypeAdd<U<10>> for U<30> {
    type Output = U<40>;
    const VALUE: usize = 40;

    proof fn lemma_output() {
    }
}

impl TypeAdd<U<11>> for U<30> {
    type Output = U<41>;
    const VALUE: usize = 41;

    proof fn lemma_output() {
    }
}

impl TypeAdd<U<12>> for U<30> {
    type Output = U<42>;
    const VALUE: usize = 42;

    proof fn lemma_output() {
    }
}

impl TypeAdd<U<13>> for U<30> {
    type Output = U<43>;
    const VALUE: usize = 43;

    proof fn lemma_output() {
    }
}

impl TypeAdd<U<14>> for U<30> {
    type Output = U<44>;
    const VALUE: usize = 44;

    proof fn lemma_output() {
    }
}

impl TypeAdd<U<15>> for U<30> {
    type Output = U<45>;
    const VALUE: usize = 45;

    proof fn lemma_output() {
    }
}

impl TypeAdd<U<16>> for U<30> {
    type Output = U<46>;
    const VALUE: usize = 46;

    proof fn lemma_output() {
    }
}

impl TypeAdd<U<17>> for U<30> {
    type Output = U<47>;
    const VALUE: usize = 47;

    proof fn lemma_output() {
    }
}

impl TypeAdd<U<18>> for U<30> {
    type Output = U<48>;
    const VALUE: usize = 48;

    proof fn lemma_output() {
    }
}

impl TypeAdd<U<19>> for U<30> {
    type Output = U<49>;
    const VALUE: usize = 49;

    proof fn lemma_output() {
    }
}

impl TypeAdd<U<20>> for U<30> {
    type Output = U<50>;
    const VALUE: usize = 50;

    proof fn lemma_output() {
    }
}

impl TypeAdd<U<21>> for U<30> {
    type Output = U<51>;
    const VALUE: usize = 51;

    proof fn lemma_output() {
    }
}

impl TypeAdd<U<22>> for U<30> {
    type Output = U<52>;
    const VALUE: usize = 52;

    proof fn lemma_output() {
    }
}

impl TypeAdd<U<23>> for U<30> {
    type Output = U<53>;
    const VALUE: usize = 53;

    proof fn lemma_output() {
    }
}

impl TypeAdd<U<24>> for U<30> {
    type Output = U<54>;
    const VALUE: usize = 54;

    proof fn lemma_output() {
    }
}

impl TypeAdd<U<25>> for U<30> {
    type Output = U<55>;
    const VALUE: usize = 55;

    proof fn lemma_output() {
    }
}

impl TypeAdd<U<26>> for U<30> {
    type Output = U<56>;
    const VALUE: usize = 56;

    proof fn lemma_output() {
    }
}

impl TypeAdd<U<27>> for U<30> {
    type Output = U<57>;
    const VALUE: usize = 57;

    proof fn lemma_output() {
    }
}

impl TypeAdd<U<28>> for U<30> {
    type Output = U<58>;
    const VALUE: usize = 58;

    proof fn lemma_output() {
    }
}

impl TypeAdd<U<29>> for U<30> {
    type Output = U<59>;
    const VALUE: usize = 59;

    proof fn lemma_output() {
    }
}

impl TypeAdd<U<30>> for U<30> {
    type Output = U<60>;
    const VALUE: usize = 60;

    proof fn lemma_output() {
    }
}

impl TypeAdd<U<31>> for U<30> {
    type Output = U<61>;
    const VALUE: usize = 61;

    proof fn lemma_output() {
    }
}

impl TypeAdd<U<0>> for U<31> {
    type Output = U<31>;
    const VALUE: usize = 31;

    proof fn lemma_output() {
    }
}

impl TypeAdd<U<1>> for U<31> {
    type Output = U<32>;
    const VALUE: usize = 32;

    proof fn lemma_output() {
    }
}

impl TypeAdd<U<2>> for U<31> {
    type Output = U<33>;
    const VALUE: usize = 33;

    proof fn lemma_output() {
    }
}

impl TypeAdd<U<3>> for U<31> {
    type Output = U<34>;
    const VALUE: usize = 34;

    proof fn lemma_output() {
    }
}

impl TypeAdd<U<4>> for U<31> {
    type Output = U<35>;
    const VALUE: usize = 35;

    proof fn lemma_output() {
    }
}

impl TypeAdd<U<5>> for U<31> {
    type Output = U<36>;
    const VALUE: usize = 36;

    proof fn lemma_output() {
    }
}

impl TypeAdd<U<6>> for U<31> {
    type Output = U<37>;
    const VALUE: usize = 37;

    proof fn lemma_output() {
    }
}

impl TypeAdd<U<7>> for U<31> {
    type Output = U<38>;
    const VALUE: usize = 38;

    proof fn lemma_output() {
    }
}

impl TypeAdd<U<8>> for U<31> {
    type Output = U<39>;
    const VALUE: usize = 39;

    proof fn lemma_output() {
    }
}

impl TypeAdd<U<9>> for U<31> {
    type Output = U<40>;
    const VALUE: usize = 40;

    proof fn lemma_output() {
    }
}

impl TypeAdd<U<10>> for U<31> {
    type Output = U<41>;
    const VALUE: usize = 41;

    proof fn lemma_output() {
    }
}

impl TypeAdd<U<11>> for U<31> {
    type Output = U<42>;
    const VALUE: usize = 42;

    proof fn lemma_output() {
    }
}

impl TypeAdd<U<12>> for U<31> {
    type Output = U<43>;
    const VALUE: usize = 43;

    proof fn lemma_output() {
    }
}

impl TypeAdd<U<13>> for U<31> {
    type Output = U<44>;
    const VALUE: usize = 44;

    proof fn lemma_output() {
    }
}

impl TypeAdd<U<14>> for U<31> {
    type Output = U<45>;
    const VALUE: usize = 45;

    proof fn lemma_output() {
    }
}

impl TypeAdd<U<15>> for U<31> {
    type Output = U<46>;
    const VALUE: usize = 46;

    proof fn lemma_output() {
    }
}

impl TypeAdd<U<16>> for U<31> {
    type Output = U<47>;
    const VALUE: usize = 47;

    proof fn lemma_output() {
    }
}

impl TypeAdd<U<17>> for U<31> {
    type Output = U<48>;
    const VALUE: usize = 48;

    proof fn lemma_output() {
    }
}

impl TypeAdd<U<18>> for U<31> {
    type Output = U<49>;
    const VALUE: usize = 49;

    proof fn lemma_output() {
    }
}

impl TypeAdd<U<19>> for U<31> {
    type Output = U<50>;
    const VALUE: usize = 50;

    proof fn lemma_output() {
    }
}

impl TypeAdd<U<20>> for U<31> {
    type Output = U<51>;
    const VALUE: usize = 51;

    proof fn lemma_output() {
    }
}

impl TypeAdd<U<21>> for U<31> {
    type Output = U<52>;
    const VALUE: usize = 52;

    proof fn lemma_output() {
    }
}

impl TypeAdd<U<22>> for U<31> {
    type Output = U<53>;
    const VALUE: usize = 53;

    proof fn lemma_output() {
    }
}

impl TypeAdd<U<23>> for U<31> {
    type Output = U<54>;
    const VALUE: usize = 54;

    proof fn lemma_output() {
    }
}

impl TypeAdd<U<24>> for U<31> {
    type Output = U<55>;
    const VALUE: usize = 55;

    proof fn lemma_output() {
    }
}

impl TypeAdd<U<25>> for U<31> {
    type Output = U<56>;
    const VALUE: usize = 56;

    proof fn lemma_output() {
    }
}

impl TypeAdd<U<26>> for U<31> {
    type Output = U<57>;
    const VALUE: usize = 57;

    proof fn lemma_output() {
    }
}

impl TypeAdd<U<27>> for U<31> {
    type Output = U<58>;
    const VALUE: usize = 58;

    proof fn lemma_output() {
    }
}

impl TypeAdd<U<28>> for U<31> {
    type Output = U<59>;
    const VALUE: usize = 59;

    proof fn lemma_output() {
    }
}

impl TypeAdd<U<29>> for U<31> {
    type Output = U<60>;
    const VALUE: usize = 60;

    proof fn lemma_output() {
    }
}

impl TypeAdd<U<30>> for U<31> {
    type Output = U<61>;
    const VALUE: usize = 61;

    proof fn lemma_output() {
    }
}

impl TypeAdd<U<31>> for U<31> {
    type Output = U<62>;
    const VALUE: usize = 62;

    proof fn lemma_output() {
    }
}

impl TypeSub<U<0>> for U<0> {
    type Output = U<0>;
    const VALUE: usize = 0;

    proof fn lemma_output() {
    }
}

impl TypeSub<U<0>> for U<1> {
    type Output = U<1>;
    const VALUE: usize = 1;

    proof fn lemma_output() {
    }
}

impl TypeSub<U<1>> for U<1> {
    type Output = U<0>;
    const VALUE: usize = 0;

    proof fn lemma_output() {
    }
}

impl TypeSub<U<0>> for U<2> {
    type Output = U<2>;
    const VALUE: usize = 2;

    proof fn lemma_output() {
    }
}

impl TypeSub<U<1>> for U<2> {
    type Output = U<1>;
    const VALUE: usize = 1;

    proof fn lemma_output() {
    }
}

impl TypeSub<U<2>> for U<2> {
    type Output = U<0>;
    const VALUE: usize = 0;

    proof fn lemma_output() {
    }
}

impl TypeSub<U<0>> for U<3> {
    type Output = U<3>;
    const VALUE: usize = 3;

    proof fn lemma_output() {
    }
}

impl TypeSub<U<1>> for U<3> {
    type Output = U<2>;
    const VALUE: usize = 2;

    proof fn lemma_output() {
    }
}

impl TypeSub<U<2>> for U<3> {
    type Output = U<1>;
    const VALUE: usize = 1;

    proof fn lemma_output() {
    }
}

impl TypeSub<U<3>> for U<3> {
    type Output = U<0>;
    const VALUE: usize = 0;

    proof fn lemma_output() {
    }
}

impl TypeSub<U<0>> for U<4> {
    type Output = U<4>;
    const VALUE: usize = 4;

    proof fn lemma_output() {
    }
}

impl TypeSub<U<1>> for U<4> {
    type Output = U<3>;
    const VALUE: usize = 3;

    proof fn lemma_output() {
    }
}

impl TypeSub<U<2>> for U<4> {
    type Output = U<2>;
    const VALUE: usize = 2;

    proof fn lemma_output() {
    }
}

impl TypeSub<U<3>> for U<4> {
    type Output = U<1>;
    const VALUE: usize = 1;

    proof fn lemma_output() {
    }
}

impl TypeSub<U<4>> for U<4> {
    type Output = U<0>;
    const VALUE: usize = 0;

    proof fn lemma_output() {
    }
}

impl TypeSub<U<0>> for U<5> {
    type Output = U<5>;
    const VALUE: usize = 5;

    proof fn lemma_output() {
    }
}

impl TypeSub<U<1>> for U<5> {
    type Output = U<4>;
    const VALUE: usize = 4;

    proof fn lemma_output() {
    }
}

impl TypeSub<U<2>> for U<5> {
    type Output = U<3>;
    const VALUE: usize = 3;

    proof fn lemma_output() {
    }
}

impl TypeSub<U<3>> for U<5> {
    type Output = U<2>;
    const VALUE: usize = 2;

    proof fn lemma_output() {
    }
}

impl TypeSub<U<4>> for U<5> {
    type Output = U<1>;
    const VALUE: usize = 1;

    proof fn lemma_output() {
    }
}

impl TypeSub<U<5>> for U<5> {
    type Output = U<0>;
    const VALUE: usize = 0;

    proof fn lemma_output() {
    }
}

impl TypeSub<U<0>> for U<6> {
    type Output = U<6>;
    const VALUE: usize = 6;

    proof fn lemma_output() {
    }
}

impl TypeSub<U<1>> for U<6> {
    type Output = U<5>;
    const VALUE: usize = 5;

    proof fn lemma_output() {
    }
}

impl TypeSub<U<2>> for U<6> {
    type Output = U<4>;
    const VALUE: usize = 4;

    proof fn lemma_output() {
    }
}

impl TypeSub<U<3>> for U<6> {
    type Output = U<3>;
    const VALUE: usize = 3;

    proof fn lemma_output() {
    }
}

impl TypeSub<U<4>> for U<6> {
    type Output = U<2>;
    const VALUE: usize = 2;

    proof fn lemma_output() {
    }
}

impl TypeSub<U<5>> for U<6> {
    type Output = U<1>;
    const VALUE: usize = 1;

    proof fn lemma_output() {
    }
}

impl TypeSub<U<6>> for U<6> {
    type Output = U<0>;
    const VALUE: usize = 0;

    proof fn lemma_output() {
    }
}

impl TypeSub<U<0>> for U<7> {
    type Output = U<7>;
    const VALUE: usize = 7;

    proof fn lemma_output() {
    }
}

impl TypeSub<U<1>> for U<7> {
    type Output = U<6>;
    const VALUE: usize = 6;

    proof fn lemma_output() {
    }
}

impl TypeSub<U<2>> for U<7> {
    type Output = U<5>;
    const VALUE: usize = 5;

    proof fn lemma_output() {
    }
}

impl TypeSub<U<3>> for U<7> {
    type Output = U<4>;
    const VALUE: usize = 4;

    proof fn lemma_output() {
    }
}

impl TypeSub<U<4>> for U<7> {
    type Output = U<3>;
    const VALUE: usize = 3;

    proof fn lemma_output() {
    }
}

impl TypeSub<U<5>> for U<7> {
    type Output = U<2>;
    const VALUE: usize = 2;

    proof fn lemma_output() {
    }
}

impl TypeSub<U<6>> for U<7> {
    type Output = U<1>;
    const VALUE: usize = 1;

    proof fn lemma_output() {
    }
}

impl TypeSub<U<7>> for U<7> {
    type Output = U<0>;
    const VALUE: usize = 0;

    proof fn lemma_output() {
    }
}

impl TypeSub<U<0>> for U<8> {
    type Output = U<8>;
    const VALUE: usize = 8;

    proof fn lemma_output() {
    }
}

impl TypeSub<U<1>> for U<8> {
    type Output = U<7>;
    const VALUE: usize = 7;

    proof fn lemma_output() {
    }
}

impl TypeSub<U<2>> for U<8> {
    type Output = U<6>;
    const VALUE: usize = 6;

    proof fn lemma_output() {
    }
}

impl TypeSub<U<3>> for U<8> {
    type Output = U<5>;
    const VALUE: usize = 5;

    proof fn lemma_output() {
    }
}

impl TypeSub<U<4>> for U<8> {
    type Output = U<4>;
    const VALUE: usize = 4;

    proof fn lemma_output() {
    }
}

impl TypeSub<U<5>> for U<8> {
    type Output = U<3>;
    const VALUE: usize = 3;

    proof fn lemma_output() {
    }
}

impl TypeSub<U<6>> for U<8> {
    type Output = U<2>;
    const VALUE: usize = 2;

    proof fn lemma_output() {
    }
}

impl TypeSub<U<7>> for U<8> {
    type Output = U<1>;
    const VALUE: usize = 1;

    proof fn lemma_output() {
    }
}

impl TypeSub<U<8>> for U<8> {
    type Output = U<0>;
    const VALUE: usize = 0;

    proof fn lemma_output() {
    }
}

impl TypeSub<U<0>> for U<9> {
    type Output = U<9>;
    const VALUE: usize = 9;

    proof fn lemma_output() {
    }
}

impl TypeSub<U<1>> for U<9> {
    type Output = U<8>;
    const VALUE: usize = 8;

    proof fn lemma_output() {
    }
}

impl TypeSub<U<2>> for U<9> {
    type Output = U<7>;
    const VALUE: usize = 7;

    proof fn lemma_output() {
    }
}

impl TypeSub<U<3>> for U<9> {
    type Output = U<6>;
    const VALUE: usize = 6;

    proof fn lemma_output() {
    }
}

impl TypeSub<U<4>> for U<9> {
    type Output = U<5>;
    const VALUE: usize = 5;

    proof fn lemma_output() {
    }
}

impl TypeSub<U<5>> for U<9> {
    type Output = U<4>;
    const VALUE: usize = 4;

    proof fn lemma_output() {
    }
}

impl TypeSub<U<6>> for U<9> {
    type Output = U<3>;
    const VALUE: usize = 3;

    proof fn lemma_output() {
    }
}

impl TypeSub<U<7>> for U<9> {
    type Output = U<2>;
    const VALUE: usize = 2;

    proof fn lemma_output() {
    }
}

impl TypeSub<U<8>> for U<9> {
    type Output = U<1>;
    const VALUE: usize = 1;

    proof fn lemma_output() {
    }
}

impl TypeSub<U<9>> for U<9> {
    type Output = U<0>;
    const VALUE: usize = 0;

    proof fn lemma_output() {
    }
}

impl TypeSub<U<0>> for U<10> {
    type Output = U<10>;
    const VALUE: usize = 10;

    proof fn lemma_output() {
    }
}

impl TypeSub<U<1>> for U<10> {
    type Output = U<9>;
    const VALUE: usize = 9;

    proof fn lemma_output() {
    }
}

impl TypeSub<U<2>> for U<10> {
    type Output = U<8>;
    const VALUE: usize = 8;

    proof fn lemma_output() {
    }
}

impl TypeSub<U<3>> for U<10> {
    type Output = U<7>;
    const VALUE: usize = 7;

    proof fn lemma_output() {
    }
}

impl TypeSub<U<4>> for U<10> {
    type Output = U<6>;
    const VALUE: usize = 6;

    proof fn lemma_output() {
    }
}

impl TypeSub<U<5>> for U<10> {
    type Output = U<5>;
    const VALUE: usize = 5;

    proof fn lemma_output() {
    }
}

impl TypeSub<U<6>> for U<10> {
    type Output = U<4>;
    const VALUE: usize = 4;

    proof fn lemma_output() {
    }
}

impl TypeSub<U<7>> for U<10> {
    type Output = U<3>;
    const VALUE: usize = 3;

    proof fn lemma_output() {
    }
}

impl TypeSub<U<8>> for U<10> {
    type Output = U<2>;
    const VALUE: usize = 2;

    proof fn lemma_output() {
    }
}

impl TypeSub<U<9>> for U<10> {
    type Output = U<1>;
    const VALUE: usize = 1;

    proof fn lemma_output() {
    }
}

impl TypeSub<U<10>> for U<10> {
    type Output = U<0>;
    const VALUE: usize = 0;

    proof fn lemma_output() {
    }
}

impl TypeSub<U<0>> for U<11> {
    type Output = U<11>;
    const VALUE: usize = 11;

    proof fn lemma_output() {
    }
}

impl TypeSub<U<1>> for U<11> {
    type Output = U<10>;
    const VALUE: usize = 10;

    proof fn lemma_output() {
    }
}

impl TypeSub<U<2>> for U<11> {
    type Output = U<9>;
    const VALUE: usize = 9;

    proof fn lemma_output() {
    }
}

impl TypeSub<U<3>> for U<11> {
    type Output = U<8>;
    const VALUE: usize = 8;

    proof fn lemma_output() {
    }
}

impl TypeSub<U<4>> for U<11> {
    type Output = U<7>;
    const VALUE: usize = 7;

    proof fn lemma_output() {
    }
}

impl TypeSub<U<5>> for U<11> {
    type Output = U<6>;
    const VALUE: usize = 6;

    proof fn lemma_output() {
    }
}

impl TypeSub<U<6>> for U<11> {
    type Output = U<5>;
    const VALUE: usize = 5;

    proof fn lemma_output() {
    }
}

impl TypeSub<U<7>> for U<11> {
    type Output = U<4>;
    const VALUE: usize = 4;

    proof fn lemma_output() {
    }
}

impl TypeSub<U<8>> for U<11> {
    type Output = U<3>;
    const VALUE: usize = 3;

    proof fn lemma_output() {
    }
}

impl TypeSub<U<9>> for U<11> {
    type Output = U<2>;
    const VALUE: usize = 2;

    proof fn lemma_output() {
    }
}

impl TypeSub<U<10>> for U<11> {
    type Output = U<1>;
    const VALUE: usize = 1;

    proof fn lemma_output() {
    }
}

impl TypeSub<U<11>> for U<11> {
    type Output = U<0>;
    const VALUE: usize = 0;

    proof fn lemma_output() {
    }
}

impl TypeSub<U<0>> for U<12> {
    type Output = U<12>;
    const VALUE: usize = 12;

    proof fn lemma_output() {
    }
}

impl TypeSub<U<1>> for U<12> {
    type Output = U<11>;
    const VALUE: usize = 11;

    proof fn lemma_output() {
    }
}

impl TypeSub<U<2>> for U<12> {
    type Output = U<10>;
    const VALUE: usize = 10;

    proof fn lemma_output() {
    }
}

impl TypeSub<U<3>> for U<12> {
    type Output = U<9>;
    const VALUE: usize = 9;

    proof fn lemma_output() {
    }
}

impl TypeSub<U<4>> for U<12> {
    type Output = U<8>;
    const VALUE: usize = 8;

    proof fn lemma_output() {
    }
}

impl TypeSub<U<5>> for U<12> {
    type Output = U<7>;
    const VALUE: usize = 7;

    proof fn lemma_output() {
    }
}

impl TypeSub<U<6>> for U<12> {
    type Output = U<6>;
    const VALUE: usize = 6;

    proof fn lemma_output() {
    }
}

impl TypeSub<U<7>> for U<12> {
    type Output = U<5>;
    const VALUE: usize = 5;

    proof fn lemma_output() {
    }
}

impl TypeSub<U<8>> for U<12> {
    type Output = U<4>;
    const VALUE: usize = 4;

    proof fn lemma_output() {
    }
}

impl TypeSub<U<9>> for U<12> {
    type Output = U<3>;
    const VALUE: usize = 3;

    proof fn lemma_output() {
    }
}

impl TypeSub<U<10>> for U<12> {
    type Output = U<2>;
    const VALUE: usize = 2;

    proof fn lemma_output() {
    }
}

impl TypeSub<U<11>> for U<12> {
    type Output = U<1>;
    const VALUE: usize = 1;

    proof fn lemma_output() {
    }
}

impl TypeSub<U<12>> for U<12> {
    type Output = U<0>;
    const VALUE: usize = 0;

    proof fn lemma_output() {
    }
}

impl TypeSub<U<0>> for U<13> {
    type Output = U<13>;
    const VALUE: usize = 13;

    proof fn lemma_output() {
    }
}

impl TypeSub<U<1>> for U<13> {
    type Output = U<12>;
    const VALUE: usize = 12;

    proof fn lemma_output() {
    }
}

impl TypeSub<U<2>> for U<13> {
    type Output = U<11>;
    const VALUE: usize = 11;

    proof fn lemma_output() {
    }
}

impl TypeSub<U<3>> for U<13> {
    type Output = U<10>;
    const VALUE: usize = 10;

    proof fn lemma_output() {
    }
}

impl TypeSub<U<4>> for U<13> {
    type Output = U<9>;
    const VALUE: usize = 9;

    proof fn lemma_output() {
    }
}

impl TypeSub<U<5>> for U<13> {
    type Output = U<8>;
    const VALUE: usize = 8;

    proof fn lemma_output() {
    }
}

impl TypeSub<U<6>> for U<13> {
    type Output = U<7>;
    const VALUE: usize = 7;

    proof fn lemma_output() {
    }
}

impl TypeSub<U<7>> for U<13> {
    type Output = U<6>;
    const VALUE: usize = 6;

    proof fn lemma_output() {
    }
}

impl TypeSub<U<8>> for U<13> {
    type Output = U<5>;
    const VALUE: usize = 5;

    proof fn lemma_output() {
    }
}

impl TypeSub<U<9>> for U<13> {
    type Output = U<4>;
    const VALUE: usize = 4;

    proof fn lemma_output() {
    }
}

impl TypeSub<U<10>> for U<13> {
    type Output = U<3>;
    const VALUE: usize = 3;

    proof fn lemma_output() {
    }
}

impl TypeSub<U<11>> for U<13> {
    type Output = U<2>;
    const VALUE: usize = 2;

    proof fn lemma_output() {
    }
}

impl TypeSub<U<12>> for U<13> {
    type Output = U<1>;
    const VALUE: usize = 1;

    proof fn lemma_output() {
    }
}

impl TypeSub<U<13>> for U<13> {
    type Output = U<0>;
    const VALUE: usize = 0;

    proof fn lemma_output() {
    }
}

impl TypeSub<U<0>> for U<14> {
    type Output = U<14>;
    const VALUE: usize = 14;

    proof fn lemma_output() {
    }
}

impl TypeSub<U<1>> for U<14> {
    type Output = U<13>;
    const VALUE: usize = 13;

    proof fn lemma_output() {
    }
}

impl TypeSub<U<2>> for U<14> {
    type Output = U<12>;
    const VALUE: usize = 12;

    proof fn lemma_output() {
    }
}

impl TypeSub<U<3>> for U<14> {
    type Output = U<11>;
    const VALUE: usize = 11;

    proof fn lemma_output() {
    }
}

impl TypeSub<U<4>> for U<14> {
    type Output = U<10>;
    const VALUE: usize = 10;

    proof fn lemma_output() {
    }
}

impl TypeSub<U<5>> for U<14> {
    type Output = U<9>;
    const VALUE: usize = 9;

    proof fn lemma_output() {
    }
}

impl TypeSub<U<6>> for U<14> {
    type Output = U<8>;
    const VALUE: usize = 8;

    proof fn lemma_output() {
    }
}

impl TypeSub<U<7>> for U<14> {
    type Output = U<7>;
    const VALUE: usize = 7;

    proof fn lemma_output() {
    }
}

impl TypeSub<U<8>> for U<14> {
    type Output = U<6>;
    const VALUE: usize = 6;

    proof fn lemma_output() {
    }
}

impl TypeSub<U<9>> for U<14> {
    type Output = U<5>;
    const VALUE: usize = 5;

    proof fn lemma_output() {
    }
}

impl TypeSub<U<10>> for U<14> {
    type Output = U<4>;
    const VALUE: usize = 4;

    proof fn lemma_output() {
    }
}

impl TypeSub<U<11>> for U<14> {
    type Output = U<3>;
    const VALUE: usize = 3;

    proof fn lemma_output() {
    }
}

impl TypeSub<U<12>> for U<14> {
    type Output = U<2>;
    const VALUE: usize = 2;

    proof fn lemma_output() {
    }
}

impl TypeSub<U<13>> for U<14> {
    type Output = U<1>;
    const VALUE: usize = 1;

    proof fn lemma_output() {
    }
}

impl TypeSub<U<14>> for U<14> {
    type Output = U<0>;
    const VALUE: usize = 0;

    proof fn lemma_output() {
    }
}

impl TypeSub<U<0>> for U<15> {
    type Output = U<15>;
    const VALUE: usize = 15;

    proof fn lemma_output() {
    }
}

impl TypeSub<U<1>> for U<15> {
    type Output = U<14>;
    const VALUE: usize = 14;

    proof fn lemma_output() {
    }
}

impl TypeSub<U<2>> for U<15> {
    type Output = U<13>;
    const VALUE: usize = 13;

    proof fn lemma_output() {
    }
}

impl TypeSub<U<3>> for U<15> {
    type Output = U<12>;
    const VALUE: usize = 12;

    proof fn lemma_output() {
    }
}

impl TypeSub<U<4>> for U<15> {
    type Output = U<11>;
    const VALUE: usize = 11;

    proof fn lemma_output() {
    }
}

impl TypeSub<U<5>> for U<15> {
    type Output = U<10>;
    const VALUE: usize = 10;

    proof fn lemma_output() {
    }
}

impl TypeSub<U<6>> for U<15> {
    type Output = U<9>;
    const VALUE: usize = 9;

    proof fn lemma_output() {
    }
}

impl TypeSub<U<7>> for U<15> {
    type Output = U<8>;
    const VALUE: usize = 8;

    proof fn lemma_output() {
    }
}

impl TypeSub<U<8>> for U<15> {
    type Output = U<7>;
    const VALUE: usize = 7;

    proof fn lemma_output() {
    }
}

impl TypeSub<U<9>> for U<15> {
    type Output = U<6>;
    const VALUE: usize = 6;

    proof fn lemma_output() {
    }
}

impl TypeSub<U<10>> for U<15> {
    type Output = U<5>;
    const VALUE: usize = 5;

    proof fn lemma_output() {
    }
}

impl TypeSub<U<11>> for U<15> {
    type Output = U<4>;
    const VALUE: usize = 4;

    proof fn lemma_output() {
    }
}

impl TypeSub<U<12>> for U<15> {
    type Output = U<3>;
    const VALUE: usize = 3;

    proof fn lemma_output() {
    }
}

impl TypeSub<U<13>> for U<15> {
    type Output = U<2>;
    const VALUE: usize = 2;

    proof fn lemma_output() {
    }
}

impl TypeSub<U<14>> for U<15> {
    type Output = U<1>;
    const VALUE: usize = 1;

    proof fn lemma_output() {
    }
}

impl TypeSub<U<15>> for U<15> {
    type Output = U<0>;
    const VALUE: usize = 0;

    proof fn lemma_output() {
    }
}

impl TypeSub<U<0>> for U<16> {
    type Output = U<16>;
    const VALUE: usize = 16;

    proof fn lemma_output() {
    }
}

impl TypeSub<U<1>> for U<16> {
    type Output = U<15>;
    const VALUE: usize = 15;

    proof fn lemma_output() {
    }
}

impl TypeSub<U<2>> for U<16> {
    type Output = U<14>;
    const VALUE: usize = 14;

    proof fn lemma_output() {
    }
}

impl TypeSub<U<3>> for U<16> {
    type Output = U<13>;
    const VALUE: usize = 13;

    proof fn lemma_output() {
    }
}

impl TypeSub<U<4>> for U<16> {
    type Output = U<12>;
    const VALUE: usize = 12;

    proof fn lemma_output() {
    }
}

impl TypeSub<U<5>> for U<16> {
    type Output = U<11>;
    const VALUE: usize = 11;

    proof fn lemma_output() {
    }
}

impl TypeSub<U<6>> for U<16> {
    type Output = U<10>;
    const VALUE: usize = 10;

    proof fn lemma_output() {
    }
}

impl TypeSub<U<7>> for U<16> {
    type Output = U<9>;
    const VALUE: usize = 9;

    proof fn lemma_output() {
    }
}

impl TypeSub<U<8>> for U<16> {
    type Output = U<8>;
    const VALUE: usize = 8;

    proof fn lemma_output() {
    }
}

impl TypeSub<U<9>> for U<16> {
    type Output = U<7>;
    const VALUE: usize = 7;

    proof fn lemma_output() {
    }
}

impl TypeSub<U<10>> for U<16> {
    type Output = U<6>;
    const VALUE: usize = 6;

    proof fn lemma_output() {
    }
}

impl TypeSub<U<11>> for U<16> {
    type Output = U<5>;
    const VALUE: usize = 5;

    proof fn lemma_output() {
    }
}

impl TypeSub<U<12>> for U<16> {
    type Output = U<4>;
    const VALUE: usize = 4;

    proof fn lemma_output() {
    }
}

impl TypeSub<U<13>> for U<16> {
    type Output = U<3>;
    const VALUE: usize = 3;

    proof fn lemma_output() {
    }
}

impl TypeSub<U<14>> for U<16> {
    type Output = U<2>;
    const VALUE: usize = 2;

    proof fn lemma_output() {
    }
}

impl TypeSub<U<15>> for U<16> {
    type Output = U<1>;
    const VALUE: usize = 1;

    proof fn lemma_output() {
    }
}

impl TypeSub<U<16>> for U<16> {
    type Output = U<0>;
    const VALUE: usize = 0;

    proof fn lemma_output() {
    }
}

impl TypeSub<U<0>> for U<17> {
    type Output = U<17>;
    const VALUE: usize = 17;

    proof fn lemma_output() {
    }
}

impl TypeSub<U<1>> for U<17> {
    type Output = U<16>;
    const VALUE: usize = 16;

    proof fn lemma_output() {
    }
}

impl TypeSub<U<2>> for U<17> {
    type Output = U<15>;
    const VALUE: usize = 15;

    proof fn lemma_output() {
    }
}

impl TypeSub<U<3>> for U<17> {
    type Output = U<14>;
    const VALUE: usize = 14;

    proof fn lemma_output() {
    }
}

impl TypeSub<U<4>> for U<17> {
    type Output = U<13>;
    const VALUE: usize = 13;

    proof fn lemma_output() {
    }
}

impl TypeSub<U<5>> for U<17> {
    type Output = U<12>;
    const VALUE: usize = 12;

    proof fn lemma_output() {
    }
}

impl TypeSub<U<6>> for U<17> {
    type Output = U<11>;
    const VALUE: usize = 11;

    proof fn lemma_output() {
    }
}

impl TypeSub<U<7>> for U<17> {
    type Output = U<10>;
    const VALUE: usize = 10;

    proof fn lemma_output() {
    }
}

impl TypeSub<U<8>> for U<17> {
    type Output = U<9>;
    const VALUE: usize = 9;

    proof fn lemma_output() {
    }
}

impl TypeSub<U<9>> for U<17> {
    type Output = U<8>;
    const VALUE: usize = 8;

    proof fn lemma_output() {
    }
}

impl TypeSub<U<10>> for U<17> {
    type Output = U<7>;
    const VALUE: usize = 7;

    proof fn lemma_output() {
    }
}

impl TypeSub<U<11>> for U<17> {
    type Output = U<6>;
    const VALUE: usize = 6;

    proof fn lemma_output() {
    }
}

impl TypeSub<U<12>> for U<17> {
    type Output = U<5>;
    const VALUE: usize = 5;

    proof fn lemma_output() {
    }
}

impl TypeSub<U<13>> for U<17> {
    type Output = U<4>;
    const VALUE: usize = 4;

    proof fn lemma_output() {
    }
}

impl TypeSub<U<14>> for U<17> {
    type Output = U<3>;
    const VALUE: usize = 3;

    proof fn lemma_output() {
    }
}

impl TypeSub<U<15>> for U<17> {
    type Output = U<2>;
    const VALUE: usize = 2;

    proof fn lemma_output() {
    }
}

impl TypeSub<U<16>> for U<17> {
    type Output = U<1>;
    const VALUE: usize = 1;

    proof fn lemma_output() {
    }
}

impl TypeSub<U<17>> for U<17> {
    type Output = U<0>;
    const VALUE: usize = 0;

    proof fn lemma_output() {
    }
}

impl TypeSub<U<0>> for U<18> {
    type Output = U<18>;
    const VALUE: usize = 18;

    proof fn lemma_output() {
    }
}

impl TypeSub<U<1>> for U<18> {
    type Output = U<17>;
    const VALUE: usize = 17;

    proof fn lemma_output() {
    }
}

impl TypeSub<U<2>> for U<18> {
    type Output = U<16>;
    const VALUE: usize = 16;

    proof fn lemma_output() {
    }
}

impl TypeSub<U<3>> for U<18> {
    type Output = U<15>;
    const VALUE: usize = 15;

    proof fn lemma_output() {
    }
}

impl TypeSub<U<4>> for U<18> {
    type Output = U<14>;
    const VALUE: usize = 14;

    proof fn lemma_output() {
    }
}

impl TypeSub<U<5>> for U<18> {
    type Output = U<13>;
    const VALUE: usize = 13;

    proof fn lemma_output() {
    }
}

impl TypeSub<U<6>> for U<18> {
    type Output = U<12>;
    const VALUE: usize = 12;

    proof fn lemma_output() {
    }
}

impl TypeSub<U<7>> for U<18> {
    type Output = U<11>;
    const VALUE: usize = 11;

    proof fn lemma_output() {
    }
}

impl TypeSub<U<8>> for U<18> {
    type Output = U<10>;
    const VALUE: usize = 10;

    proof fn lemma_output() {
    }
}

impl TypeSub<U<9>> for U<18> {
    type Output = U<9>;
    const VALUE: usize = 9;

    proof fn lemma_output() {
    }
}

impl TypeSub<U<10>> for U<18> {
    type Output = U<8>;
    const VALUE: usize = 8;

    proof fn lemma_output() {
    }
}

impl TypeSub<U<11>> for U<18> {
    type Output = U<7>;
    const VALUE: usize = 7;

    proof fn lemma_output() {
    }
}

impl TypeSub<U<12>> for U<18> {
    type Output = U<6>;
    const VALUE: usize = 6;

    proof fn lemma_output() {
    }
}

impl TypeSub<U<13>> for U<18> {
    type Output = U<5>;
    const VALUE: usize = 5;

    proof fn lemma_output() {
    }
}

impl TypeSub<U<14>> for U<18> {
    type Output = U<4>;
    const VALUE: usize = 4;

    proof fn lemma_output() {
    }
}

impl TypeSub<U<15>> for U<18> {
    type Output = U<3>;
    const VALUE: usize = 3;

    proof fn lemma_output() {
    }
}

impl TypeSub<U<16>> for U<18> {
    type Output = U<2>;
    const VALUE: usize = 2;

    proof fn lemma_output() {
    }
}

impl TypeSub<U<17>> for U<18> {
    type Output = U<1>;
    const VALUE: usize = 1;

    proof fn lemma_output() {
    }
}

impl TypeSub<U<18>> for U<18> {
    type Output = U<0>;
    const VALUE: usize = 0;

    proof fn lemma_output() {
    }
}

impl TypeSub<U<0>> for U<19> {
    type Output = U<19>;
    const VALUE: usize = 19;

    proof fn lemma_output() {
    }
}

impl TypeSub<U<1>> for U<19> {
    type Output = U<18>;
    const VALUE: usize = 18;

    proof fn lemma_output() {
    }
}

impl TypeSub<U<2>> for U<19> {
    type Output = U<17>;
    const VALUE: usize = 17;

    proof fn lemma_output() {
    }
}

impl TypeSub<U<3>> for U<19> {
    type Output = U<16>;
    const VALUE: usize = 16;

    proof fn lemma_output() {
    }
}

impl TypeSub<U<4>> for U<19> {
    type Output = U<15>;
    const VALUE: usize = 15;

    proof fn lemma_output() {
    }
}

impl TypeSub<U<5>> for U<19> {
    type Output = U<14>;
    const VALUE: usize = 14;

    proof fn lemma_output() {
    }
}

impl TypeSub<U<6>> for U<19> {
    type Output = U<13>;
    const VALUE: usize = 13;

    proof fn lemma_output() {
    }
}

impl TypeSub<U<7>> for U<19> {
    type Output = U<12>;
    const VALUE: usize = 12;

    proof fn lemma_output() {
    }
}

impl TypeSub<U<8>> for U<19> {
    type Output = U<11>;
    const VALUE: usize = 11;

    proof fn lemma_output() {
    }
}

impl TypeSub<U<9>> for U<19> {
    type Output = U<10>;
    const VALUE: usize = 10;

    proof fn lemma_output() {
    }
}

impl TypeSub<U<10>> for U<19> {
    type Output = U<9>;
    const VALUE: usize = 9;

    proof fn lemma_output() {
    }
}

impl TypeSub<U<11>> for U<19> {
    type Output = U<8>;
    const VALUE: usize = 8;

    proof fn lemma_output() {
    }
}

impl TypeSub<U<12>> for U<19> {
    type Output = U<7>;
    const VALUE: usize = 7;

    proof fn lemma_output() {
    }
}

impl TypeSub<U<13>> for U<19> {
    type Output = U<6>;
    const VALUE: usize = 6;

    proof fn lemma_output() {
    }
}

impl TypeSub<U<14>> for U<19> {
    type Output = U<5>;
    const VALUE: usize = 5;

    proof fn lemma_output() {
    }
}

impl TypeSub<U<15>> for U<19> {
    type Output = U<4>;
    const VALUE: usize = 4;

    proof fn lemma_output() {
    }
}

impl TypeSub<U<16>> for U<19> {
    type Output = U<3>;
    const VALUE: usize = 3;

    proof fn lemma_output() {
    }
}

impl TypeSub<U<17>> for U<19> {
    type Output = U<2>;
    const VALUE: usize = 2;

    proof fn lemma_output() {
    }
}

impl TypeSub<U<18>> for U<19> {
    type Output = U<1>;
    const VALUE: usize = 1;

    proof fn lemma_output() {
    }
}

impl TypeSub<U<19>> for U<19> {
    type Output = U<0>;
    const VALUE: usize = 0;

    proof fn lemma_output() {
    }
}

impl TypeSub<U<0>> for U<20> {
    type Output = U<20>;
    const VALUE: usize = 20;

    proof fn lemma_output() {
    }
}

impl TypeSub<U<1>> for U<20> {
    type Output = U<19>;
    const VALUE: usize = 19;

    proof fn lemma_output() {
    }
}

impl TypeSub<U<2>> for U<20> {
    type Output = U<18>;
    const VALUE: usize = 18;

    proof fn lemma_output() {
    }
}

impl TypeSub<U<3>> for U<20> {
    type Output = U<17>;
    const VALUE: usize = 17;

    proof fn lemma_output() {
    }
}

impl TypeSub<U<4>> for U<20> {
    type Output = U<16>;
    const VALUE: usize = 16;

    proof fn lemma_output() {
    }
}

impl TypeSub<U<5>> for U<20> {
    type Output = U<15>;
    const VALUE: usize = 15;

    proof fn lemma_output() {
    }
}

impl TypeSub<U<6>> for U<20> {
    type Output = U<14>;
    const VALUE: usize = 14;

    proof fn lemma_output() {
    }
}

impl TypeSub<U<7>> for U<20> {
    type Output = U<13>;
    const VALUE: usize = 13;

    proof fn lemma_output() {
    }
}

impl TypeSub<U<8>> for U<20> {
    type Output = U<12>;
    const VALUE: usize = 12;

    proof fn lemma_output() {
    }
}

impl TypeSub<U<9>> for U<20> {
    type Output = U<11>;
    const VALUE: usize = 11;

    proof fn lemma_output() {
    }
}

impl TypeSub<U<10>> for U<20> {
    type Output = U<10>;
    const VALUE: usize = 10;

    proof fn lemma_output() {
    }
}

impl TypeSub<U<11>> for U<20> {
    type Output = U<9>;
    const VALUE: usize = 9;

    proof fn lemma_output() {
    }
}

impl TypeSub<U<12>> for U<20> {
    type Output = U<8>;
    const VALUE: usize = 8;

    proof fn lemma_output() {
    }
}

impl TypeSub<U<13>> for U<20> {
    type Output = U<7>;
    const VALUE: usize = 7;

    proof fn lemma_output() {
    }
}

impl TypeSub<U<14>> for U<20> {
    type Output = U<6>;
    const VALUE: usize = 6;

    proof fn lemma_output() {
    }
}

impl TypeSub<U<15>> for U<20> {
    type Output = U<5>;
    const VALUE: usize = 5;

    proof fn lemma_output() {
    }
}

impl TypeSub<U<16>> for U<20> {
    type Output = U<4>;
    const VALUE: usize = 4;

    proof fn lemma_output() {
    }
}

impl TypeSub<U<17>> for U<20> {
    type Output = U<3>;
    const VALUE: usize = 3;

    proof fn lemma_output() {
    }
}

impl TypeSub<U<18>> for U<20> {
    type Output = U<2>;
    const VALUE: usize = 2;

    proof fn lemma_output() {
    }
}

impl TypeSub<U<19>> for U<20> {
    type Output = U<1>;
    const VALUE: usize = 1;

    proof fn lemma_output() {
    }
}

impl TypeSub<U<20>> for U<20> {
    type Output = U<0>;
    const VALUE: usize = 0;

    proof fn lemma_output() {
    }
}

impl TypeSub<U<0>> for U<21> {
    type Output = U<21>;
    const VALUE: usize = 21;

    proof fn lemma_output() {
    }
}

impl TypeSub<U<1>> for U<21> {
    type Output = U<20>;
    const VALUE: usize = 20;

    proof fn lemma_output() {
    }
}

impl TypeSub<U<2>> for U<21> {
    type Output = U<19>;
    const VALUE: usize = 19;

    proof fn lemma_output() {
    }
}

impl TypeSub<U<3>> for U<21> {
    type Output = U<18>;
    const VALUE: usize = 18;

    proof fn lemma_output() {
    }
}

impl TypeSub<U<4>> for U<21> {
    type Output = U<17>;
    const VALUE: usize = 17;

    proof fn lemma_output() {
    }
}

impl TypeSub<U<5>> for U<21> {
    type Output = U<16>;
    const VALUE: usize = 16;

    proof fn lemma_output() {
    }
}

impl TypeSub<U<6>> for U<21> {
    type Output = U<15>;
    const VALUE: usize = 15;

    proof fn lemma_output() {
    }
}

impl TypeSub<U<7>> for U<21> {
    type Output = U<14>;
    const VALUE: usize = 14;

    proof fn lemma_output() {
    }
}

impl TypeSub<U<8>> for U<21> {
    type Output = U<13>;
    const VALUE: usize = 13;

    proof fn lemma_output() {
    }
}

impl TypeSub<U<9>> for U<21> {
    type Output = U<12>;
    const VALUE: usize = 12;

    proof fn lemma_output() {
    }
}

impl TypeSub<U<10>> for U<21> {
    type Output = U<11>;
    const VALUE: usize = 11;

    proof fn lemma_output() {
    }
}

impl TypeSub<U<11>> for U<21> {
    type Output = U<10>;
    const VALUE: usize = 10;

    proof fn lemma_output() {
    }
}

impl TypeSub<U<12>> for U<21> {
    type Output = U<9>;
    const VALUE: usize = 9;

    proof fn lemma_output() {
    }
}

impl TypeSub<U<13>> for U<21> {
    type Output = U<8>;
    const VALUE: usize = 8;

    proof fn lemma_output() {
    }
}

impl TypeSub<U<14>> for U<21> {
    type Output = U<7>;
    const VALUE: usize = 7;

    proof fn lemma_output() {
    }
}

impl TypeSub<U<15>> for U<21> {
    type Output = U<6>;
    const VALUE: usize = 6;

    proof fn lemma_output() {
    }
}

impl TypeSub<U<16>> for U<21> {
    type Output = U<5>;
    const VALUE: usize = 5;

    proof fn lemma_output() {
    }
}

impl TypeSub<U<17>> for U<21> {
    type Output = U<4>;
    const VALUE: usize = 4;

    proof fn lemma_output() {
    }
}

impl TypeSub<U<18>> for U<21> {
    type Output = U<3>;
    const VALUE: usize = 3;

    proof fn lemma_output() {
    }
}

impl TypeSub<U<19>> for U<21> {
    type Output = U<2>;
    const VALUE: usize = 2;

    proof fn lemma_output() {
    }
}

impl TypeSub<U<20>> for U<21> {
    type Output = U<1>;
    const VALUE: usize = 1;

    proof fn lemma_output() {
    }
}

impl TypeSub<U<21>> for U<21> {
    type Output = U<0>;
    const VALUE: usize = 0;

    proof fn lemma_output() {
    }
}

impl TypeSub<U<0>> for U<22> {
    type Output = U<22>;
    const VALUE: usize = 22;

    proof fn lemma_output() {
    }
}

impl TypeSub<U<1>> for U<22> {
    type Output = U<21>;
    const VALUE: usize = 21;

    proof fn lemma_output() {
    }
}

impl TypeSub<U<2>> for U<22> {
    type Output = U<20>;
    const VALUE: usize = 20;

    proof fn lemma_output() {
    }
}

impl TypeSub<U<3>> for U<22> {
    type Output = U<19>;
    const VALUE: usize = 19;

    proof fn lemma_output() {
    }
}

impl TypeSub<U<4>> for U<22> {
    type Output = U<18>;
    const VALUE: usize = 18;

    proof fn lemma_output() {
    }
}

impl TypeSub<U<5>> for U<22> {
    type Output = U<17>;
    const VALUE: usize = 17;

    proof fn lemma_output() {
    }
}

impl TypeSub<U<6>> for U<22> {
    type Output = U<16>;
    const VALUE: usize = 16;

    proof fn lemma_output() {
    }
}

impl TypeSub<U<7>> for U<22> {
    type Output = U<15>;
    const VALUE: usize = 15;

    proof fn lemma_output() {
    }
}

impl TypeSub<U<8>> for U<22> {
    type Output = U<14>;
    const VALUE: usize = 14;

    proof fn lemma_output() {
    }
}

impl TypeSub<U<9>> for U<22> {
    type Output = U<13>;
    const VALUE: usize = 13;

    proof fn lemma_output() {
    }
}

impl TypeSub<U<10>> for U<22> {
    type Output = U<12>;
    const VALUE: usize = 12;

    proof fn lemma_output() {
    }
}

impl TypeSub<U<11>> for U<22> {
    type Output = U<11>;
    const VALUE: usize = 11;

    proof fn lemma_output() {
    }
}

impl TypeSub<U<12>> for U<22> {
    type Output = U<10>;
    const VALUE: usize = 10;

    proof fn lemma_output() {
    }
}

impl TypeSub<U<13>> for U<22> {
    type Output = U<9>;
    const VALUE: usize = 9;

    proof fn lemma_output() {
    }
}

impl TypeSub<U<14>> for U<22> {
    type Output = U<8>;
    const VALUE: usize = 8;

    proof fn lemma_output() {
    }
}

impl TypeSub<U<15>> for U<22> {
    type Output = U<7>;
    const VALUE: usize = 7;

    proof fn lemma_output() {
    }
}

impl TypeSub<U<16>> for U<22> {
    type Output = U<6>;
    const VALUE: usize = 6;

    proof fn lemma_output() {
    }
}

impl TypeSub<U<17>> for U<22> {
    type Output = U<5>;
    const VALUE: usize = 5;

    proof fn lemma_output() {
    }
}

impl TypeSub<U<18>> for U<22> {
    type Output = U<4>;
    const VALUE: usize = 4;

    proof fn lemma_output() {
    }
}

impl TypeSub<U<19>> for U<22> {
    type Output = U<3>;
    const VALUE: usize = 3;

    proof fn lemma_output() {
    }
}

impl TypeSub<U<20>> for U<22> {
    type Output = U<2>;
    const VALUE: usize = 2;

    proof fn lemma_output() {
    }
}

impl TypeSub<U<21>> for U<22> {
    type Output = U<1>;
    const VALUE: usize = 1;

    proof fn lemma_output() {
    }
}

impl TypeSub<U<22>> for U<22> {
    type Output = U<0>;
    const VALUE: usize = 0;

    proof fn lemma_output() {
    }
}

impl TypeSub<U<0>> for U<23> {
    type Output = U<23>;
    const VALUE: usize = 23;

    proof fn lemma_output() {
    }
}

impl TypeSub<U<1>> for U<23> {
    type Output = U<22>;
    const VALUE: usize = 22;

    proof fn lemma_output() {
    }
}

impl TypeSub<U<2>> for U<23> {
    type Output = U<21>;
    const VALUE: usize = 21;

    proof fn lemma_output() {
    }
}

impl TypeSub<U<3>> for U<23> {
    type Output = U<20>;
    const VALUE: usize = 20;

    proof fn lemma_output() {
    }
}

impl TypeSub<U<4>> for U<23> {
    type Output = U<19>;
    const VALUE: usize = 19;

    proof fn lemma_output() {
    }
}

impl TypeSub<U<5>> for U<23> {
    type Output = U<18>;
    const VALUE: usize = 18;

    proof fn lemma_output() {
    }
}

impl TypeSub<U<6>> for U<23> {
    type Output = U<17>;
    const VALUE: usize = 17;

    proof fn lemma_output() {
    }
}

impl TypeSub<U<7>> for U<23> {
    type Output = U<16>;
    const VALUE: usize = 16;

    proof fn lemma_output() {
    }
}

impl TypeSub<U<8>> for U<23> {
    type Output = U<15>;
    const VALUE: usize = 15;

    proof fn lemma_output() {
    }
}

impl TypeSub<U<9>> for U<23> {
    type Output = U<14>;
    const VALUE: usize = 14;

    proof fn lemma_output() {
    }
}

impl TypeSub<U<10>> for U<23> {
    type Output = U<13>;
    const VALUE: usize = 13;

    proof fn lemma_output() {
    }
}

impl TypeSub<U<11>> for U<23> {
    type Output = U<12>;
    const VALUE: usize = 12;

    proof fn lemma_output() {
    }
}

impl TypeSub<U<12>> for U<23> {
    type Output = U<11>;
    const VALUE: usize = 11;

    proof fn lemma_output() {
    }
}

impl TypeSub<U<13>> for U<23> {
    type Output = U<10>;
    const VALUE: usize = 10;

    proof fn lemma_output() {
    }
}

impl TypeSub<U<14>> for U<23> {
    type Output = U<9>;
    const VALUE: usize = 9;

    proof fn lemma_output() {
    }
}

impl TypeSub<U<15>> for U<23> {
    type Output = U<8>;
    const VALUE: usize = 8;

    proof fn lemma_output() {
    }
}

impl TypeSub<U<16>> for U<23> {
    type Output = U<7>;
    const VALUE: usize = 7;

    proof fn lemma_output() {
    }
}

impl TypeSub<U<17>> for U<23> {
    type Output = U<6>;
    const VALUE: usize = 6;

    proof fn lemma_output() {
    }
}

impl TypeSub<U<18>> for U<23> {
    type Output = U<5>;
    const VALUE: usize = 5;

    proof fn lemma_output() {
    }
}

impl TypeSub<U<19>> for U<23> {
    type Output = U<4>;
    const VALUE: usize = 4;

    proof fn lemma_output() {
    }
}

impl TypeSub<U<20>> for U<23> {
    type Output = U<3>;
    const VALUE: usize = 3;

    proof fn lemma_output() {
    }
}

impl TypeSub<U<21>> for U<23> {
    type Output = U<2>;
    const VALUE: usize = 2;

    proof fn lemma_output() {
    }
}

impl TypeSub<U<22>> for U<23> {
    type Output = U<1>;
    const VALUE: usize = 1;

    proof fn lemma_output() {
    }
}

impl TypeSub<U<23>> for U<23> {
    type Output = U<0>;
    const VALUE: usize = 0;

    proof fn lemma_output() {
    }
}

impl TypeSub<U<0>> for U<24> {
    type Output = U<24>;
    const VALUE: usize = 24;

    proof fn lemma_output() {
    }
}

impl TypeSub<U<1>> for U<24> {
    type Output = U<23>;
    const VALUE: usize = 23;

    proof fn lemma_output() {
    }
}

impl TypeSub<U<2>> for U<24> {
    type Output = U<22>;
    const VALUE: usize = 22;

    proof fn lemma_output() {
    }
}

impl TypeSub<U<3>> for U<24> {
    type Output = U<21>;
    const VALUE: usize = 21;

    proof fn lemma_output() {
    }
}

impl TypeSub<U<4>> for U<24> {
    type Output = U<20>;
    const VALUE: usize = 20;

    proof fn lemma_output() {
    }
}

impl TypeSub<U<5>> for U<24> {
    type Output = U<19>;
    const VALUE: usize = 19;

    proof fn lemma_output() {
    }
}

impl TypeSub<U<6>> for U<24> {
    type Output = U<18>;
    const VALUE: usize = 18;

    proof fn lemma_output() {
    }
}

impl TypeSub<U<7>> for U<24> {
    type Output = U<17>;
    const VALUE: usize = 17;

    proof fn lemma_output() {
    }
}

impl TypeSub<U<8>> for U<24> {
    type Output = U<16>;
    const VALUE: usize = 16;

    proof fn lemma_output() {
    }
}

impl TypeSub<U<9>> for U<24> {
    type Output = U<15>;
    const VALUE: usize = 15;

    proof fn lemma_output() {
    }
}

impl TypeSub<U<10>> for U<24> {
    type Output = U<14>;
    const VALUE: usize = 14;

    proof fn lemma_output() {
    }
}

impl TypeSub<U<11>> for U<24> {
    type Output = U<13>;
    const VALUE: usize = 13;

    proof fn lemma_output() {
    }
}

impl TypeSub<U<12>> for U<24> {
    type Output = U<12>;
    const VALUE: usize = 12;

    proof fn lemma_output() {
    }
}

impl TypeSub<U<13>> for U<24> {
    type Output = U<11>;
    const VALUE: usize = 11;

    proof fn lemma_output() {
    }
}

impl TypeSub<U<14>> for U<24> {
    type Output = U<10>;
    const VALUE: usize = 10;

    proof fn lemma_output() {
    }
}

impl TypeSub<U<15>> for U<24> {
    type Output = U<9>;
    const VALUE: usize = 9;

    proof fn lemma_output() {
    }
}

impl TypeSub<U<16>> for U<24> {
    type Output = U<8>;
    const VALUE: usize = 8;

    proof fn lemma_output() {
    }
}

impl TypeSub<U<17>> for U<24> {
    type Output = U<7>;
    const VALUE: usize = 7;

    proof fn lemma_output() {
    }
}

impl TypeSub<U<18>> for U<24> {
    type Output = U<6>;
    const VALUE: usize = 6;

    proof fn lemma_output() {
    }
}

impl TypeSub<U<19>> for U<24> {
    type Output = U<5>;
    const VALUE: usize = 5;

    proof fn lemma_output() {
    }
}

impl TypeSub<U<20>> for U<24> {
    type Output = U<4>;
    const VALUE: usize = 4;

    proof fn lemma_output() {
    }
}

impl TypeSub<U<21>> for U<24> {
    type Output = U<3>;
    const VALUE: usize = 3;

    proof fn lemma_output() {
    }
}

impl TypeSub<U<22>> for U<24> {
    type Output = U<2>;
    const VALUE: usize = 2;

    proof fn lemma_output() {
    }
}

impl TypeSub<U<23>> for U<24> {
    type Output = U<1>;
    const VALUE: usize = 1;

    proof fn lemma_output() {
    }
}

impl TypeSub<U<24>> for U<24> {
    type Output = U<0>;
    const VALUE: usize = 0;

    proof fn lemma_output() {
    }
}

impl TypeSub<U<0>> for U<25> {
    type Output = U<25>;
    const VALUE: usize = 25;

    proof fn lemma_output() {
    }
}

impl TypeSub<U<1>> for U<25> {
    type Output = U<24>;
    const VALUE: usize = 24;

    proof fn lemma_output() {
    }
}

impl TypeSub<U<2>> for U<25> {
    type Output = U<23>;
    const VALUE: usize = 23;

    proof fn lemma_output() {
    }
}

impl TypeSub<U<3>> for U<25> {
    type Output = U<22>;
    const VALUE: usize = 22;

    proof fn lemma_output() {
    }
}

impl TypeSub<U<4>> for U<25> {
    type Output = U<21>;
    const VALUE: usize = 21;

    proof fn lemma_output() {
    }
}

impl TypeSub<U<5>> for U<25> {
    type Output = U<20>;
    const VALUE: usize = 20;

    proof fn lemma_output() {
    }
}

impl TypeSub<U<6>> for U<25> {
    type Output = U<19>;
    const VALUE: usize = 19;

    proof fn lemma_output() {
    }
}

impl TypeSub<U<7>> for U<25> {
    type Output = U<18>;
    const VALUE: usize = 18;

    proof fn lemma_output() {
    }
}

impl TypeSub<U<8>> for U<25> {
    type Output = U<17>;
    const VALUE: usize = 17;

    proof fn lemma_output() {
    }
}

impl TypeSub<U<9>> for U<25> {
    type Output = U<16>;
    const VALUE: usize = 16;

    proof fn lemma_output() {
    }
}

impl TypeSub<U<10>> for U<25> {
    type Output = U<15>;
    const VALUE: usize = 15;

    proof fn lemma_output() {
    }
}

impl TypeSub<U<11>> for U<25> {
    type Output = U<14>;
    const VALUE: usize = 14;

    proof fn lemma_output() {
    }
}

impl TypeSub<U<12>> for U<25> {
    type Output = U<13>;
    const VALUE: usize = 13;

    proof fn lemma_output() {
    }
}

impl TypeSub<U<13>> for U<25> {
    type Output = U<12>;
    const VALUE: usize = 12;

    proof fn lemma_output() {
    }
}

impl TypeSub<U<14>> for U<25> {
    type Output = U<11>;
    const VALUE: usize = 11;

    proof fn lemma_output() {
    }
}

impl TypeSub<U<15>> for U<25> {
    type Output = U<10>;
    const VALUE: usize = 10;

    proof fn lemma_output() {
    }
}

impl TypeSub<U<16>> for U<25> {
    type Output = U<9>;
    const VALUE: usize = 9;

    proof fn lemma_output() {
    }
}

impl TypeSub<U<17>> for U<25> {
    type Output = U<8>;
    const VALUE: usize = 8;

    proof fn lemma_output() {
    }
}

impl TypeSub<U<18>> for U<25> {
    type Output = U<7>;
    const VALUE: usize = 7;

    proof fn lemma_output() {
    }
}

impl TypeSub<U<19>> for U<25> {
    type Output = U<6>;
    const VALUE: usize = 6;

    proof fn lemma_output() {
    }
}

impl TypeSub<U<20>> for U<25> {
    type Output = U<5>;
    const VALUE: usize = 5;

    proof fn lemma_output() {
    }
}

impl TypeSub<U<21>> for U<25> {
    type Output = U<4>;
    const VALUE: usize = 4;

    proof fn lemma_output() {
    }
}

impl TypeSub<U<22>> for U<25> {
    type Output = U<3>;
    const VALUE: usize = 3;

    proof fn lemma_output() {
    }
}

impl TypeSub<U<23>> for U<25> {
    type Output = U<2>;
    const VALUE: usize = 2;

    proof fn lemma_output() {
    }
}

impl TypeSub<U<24>> for U<25> {
    type Output = U<1>;
    const VALUE: usize = 1;

    proof fn lemma_output() {
    }
}

impl TypeSub<U<25>> for U<25> {
    type Output = U<0>;
    const VALUE: usize = 0;

    proof fn lemma_output() {
    }
}

impl TypeSub<U<0>> for U<26> {
    type Output = U<26>;
    const VALUE: usize = 26;

    proof fn lemma_output() {
    }
}

impl TypeSub<U<1>> for U<26> {
    type Output = U<25>;
    const VALUE: usize = 25;

    proof fn lemma_output() {
    }
}

impl TypeSub<U<2>> for U<26> {
    type Output = U<24>;
    const VALUE: usize = 24;

    proof fn lemma_output() {
    }
}

impl TypeSub<U<3>> for U<26> {
    type Output = U<23>;
    const VALUE: usize = 23;

    proof fn lemma_output() {
    }
}

impl TypeSub<U<4>> for U<26> {
    type Output = U<22>;
    const VALUE: usize = 22;

    proof fn lemma_output() {
    }
}

impl TypeSub<U<5>> for U<26> {
    type Output = U<21>;
    const VALUE: usize = 21;

    proof fn lemma_output() {
    }
}

impl TypeSub<U<6>> for U<26> {
    type Output = U<20>;
    const VALUE: usize = 20;

    proof fn lemma_output() {
    }
}

impl TypeSub<U<7>> for U<26> {
    type Output = U<19>;
    const VALUE: usize = 19;

    proof fn lemma_output() {
    }
}

impl TypeSub<U<8>> for U<26> {
    type Output = U<18>;
    const VALUE: usize = 18;

    proof fn lemma_output() {
    }
}

impl TypeSub<U<9>> for U<26> {
    type Output = U<17>;
    const VALUE: usize = 17;

    proof fn lemma_output() {
    }
}

impl TypeSub<U<10>> for U<26> {
    type Output = U<16>;
    const VALUE: usize = 16;

    proof fn lemma_output() {
    }
}

impl TypeSub<U<11>> for U<26> {
    type Output = U<15>;
    const VALUE: usize = 15;

    proof fn lemma_output() {
    }
}

impl TypeSub<U<12>> for U<26> {
    type Output = U<14>;
    const VALUE: usize = 14;

    proof fn lemma_output() {
    }
}

impl TypeSub<U<13>> for U<26> {
    type Output = U<13>;
    const VALUE: usize = 13;

    proof fn lemma_output() {
    }
}

impl TypeSub<U<14>> for U<26> {
    type Output = U<12>;
    const VALUE: usize = 12;

    proof fn lemma_output() {
    }
}

impl TypeSub<U<15>> for U<26> {
    type Output = U<11>;
    const VALUE: usize = 11;

    proof fn lemma_output() {
    }
}

impl TypeSub<U<16>> for U<26> {
    type Output = U<10>;
    const VALUE: usize = 10;

    proof fn lemma_output() {
    }
}

impl TypeSub<U<17>> for U<26> {
    type Output = U<9>;
    const VALUE: usize = 9;

    proof fn lemma_output() {
    }
}

impl TypeSub<U<18>> for U<26> {
    type Output = U<8>;
    const VALUE: usize = 8;

    proof fn lemma_output() {
    }
}

impl TypeSub<U<19>> for U<26> {
    type Output = U<7>;
    const VALUE: usize = 7;

    proof fn lemma_output() {
    }
}

impl TypeSub<U<20>> for U<26> {
    type Output = U<6>;
    const VALUE: usize = 6;

    proof fn lemma_output() {
    }
}

impl TypeSub<U<21>> for U<26> {
    type Output = U<5>;
    const VALUE: usize = 5;

    proof fn lemma_output() {
    }
}

impl TypeSub<U<22>> for U<26> {
    type Output = U<4>;
    const VALUE: usize = 4;

    proof fn lemma_output() {
    }
}

impl TypeSub<U<23>> for U<26> {
    type Output = U<3>;
    const VALUE: usize = 3;

    proof fn lemma_output() {
    }
}

impl TypeSub<U<24>> for U<26> {
    type Output = U<2>;
    const VALUE: usize = 2;

    proof fn lemma_output() {
    }
}

impl TypeSub<U<25>> for U<26> {
    type Output = U<1>;
    const VALUE: usize = 1;

    proof fn lemma_output() {
    }
}

impl TypeSub<U<26>> for U<26> {
    type Output = U<0>;
    const VALUE: usize = 0;

    proof fn lemma_output() {
    }
}

impl TypeSub<U<0>> for U<27> {
    type Output = U<27>;
    const VALUE: usize = 27;

    proof fn lemma_output() {
    }
}

impl TypeSub<U<1>> for U<27> {
    type Output = U<26>;
    const VALUE: usize = 26;

    proof fn lemma_output() {
    }
}

impl TypeSub<U<2>> for U<27> {
    type Output = U<25>;
    const VALUE: usize = 25;

    proof fn lemma_output() {
    }
}

impl TypeSub<U<3>> for U<27> {
    type Output = U<24>;
    const VALUE: usize = 24;

    proof fn lemma_output() {
    }
}

impl TypeSub<U<4>> for U<27> {
    type Output = U<23>;
    const VALUE: usize = 23;

    proof fn lemma_output() {
    }
}

impl TypeSub<U<5>> for U<27> {
    type Output = U<22>;
    const VALUE: usize = 22;

    proof fn lemma_output() {
    }
}

impl TypeSub<U<6>> for U<27> {
    type Output = U<21>;
    const VALUE: usize = 21;

    proof fn lemma_output() {
    }
}

impl TypeSub<U<7>> for U<27> {
    type Output = U<20>;
    const VALUE: usize = 20;

    proof fn lemma_output() {
    }
}

impl TypeSub<U<8>> for U<27> {
    type Output = U<19>;
    const VALUE: usize = 19;

    proof fn lemma_output() {
    }
}

impl TypeSub<U<9>> for U<27> {
    type Output = U<18>;
    const VALUE: usize = 18;

    proof fn lemma_output() {
    }
}

impl TypeSub<U<10>> for U<27> {
    type Output = U<17>;
    const VALUE: usize = 17;

    proof fn lemma_output() {
    }
}

impl TypeSub<U<11>> for U<27> {
    type Output = U<16>;
    const VALUE: usize = 16;

    proof fn lemma_output() {
    }
}

impl TypeSub<U<12>> for U<27> {
    type Output = U<15>;
    const VALUE: usize = 15;

    proof fn lemma_output() {
    }
}

impl TypeSub<U<13>> for U<27> {
    type Output = U<14>;
    const VALUE: usize = 14;

    proof fn lemma_output() {
    }
}

impl TypeSub<U<14>> for U<27> {
    type Output = U<13>;
    const VALUE: usize = 13;

    proof fn lemma_output() {
    }
}

impl TypeSub<U<15>> for U<27> {
    type Output = U<12>;
    const VALUE: usize = 12;

    proof fn lemma_output() {
    }
}

impl TypeSub<U<16>> for U<27> {
    type Output = U<11>;
    const VALUE: usize = 11;

    proof fn lemma_output() {
    }
}

impl TypeSub<U<17>> for U<27> {
    type Output = U<10>;
    const VALUE: usize = 10;

    proof fn lemma_output() {
    }
}

impl TypeSub<U<18>> for U<27> {
    type Output = U<9>;
    const VALUE: usize = 9;

    proof fn lemma_output() {
    }
}

impl TypeSub<U<19>> for U<27> {
    type Output = U<8>;
    const VALUE: usize = 8;

    proof fn lemma_output() {
    }
}

impl TypeSub<U<20>> for U<27> {
    type Output = U<7>;
    const VALUE: usize = 7;

    proof fn lemma_output() {
    }
}

impl TypeSub<U<21>> for U<27> {
    type Output = U<6>;
    const VALUE: usize = 6;

    proof fn lemma_output() {
    }
}

impl TypeSub<U<22>> for U<27> {
    type Output = U<5>;
    const VALUE: usize = 5;

    proof fn lemma_output() {
    }
}

impl TypeSub<U<23>> for U<27> {
    type Output = U<4>;
    const VALUE: usize = 4;

    proof fn lemma_output() {
    }
}

impl TypeSub<U<24>> for U<27> {
    type Output = U<3>;
    const VALUE: usize = 3;

    proof fn lemma_output() {
    }
}

impl TypeSub<U<25>> for U<27> {
    type Output = U<2>;
    const VALUE: usize = 2;

    proof fn lemma_output() {
    }
}

impl TypeSub<U<26>> for U<27> {
    type Output = U<1>;
    const VALUE: usize = 1;

    proof fn lemma_output() {
    }
}

impl TypeSub<U<27>> for U<27> {
    type Output = U<0>;
    const VALUE: usize = 0;

    proof fn lemma_output() {
    }
}

impl TypeSub<U<0>> for U<28> {
    type Output = U<28>;
    const VALUE: usize = 28;

    proof fn lemma_output() {
    }
}

impl TypeSub<U<1>> for U<28> {
    type Output = U<27>;
    const VALUE: usize = 27;

    proof fn lemma_output() {
    }
}

impl TypeSub<U<2>> for U<28> {
    type Output = U<26>;
    const VALUE: usize = 26;

    proof fn lemma_output() {
    }
}

impl TypeSub<U<3>> for U<28> {
    type Output = U<25>;
    const VALUE: usize = 25;

    proof fn lemma_output() {
    }
}

impl TypeSub<U<4>> for U<28> {
    type Output = U<24>;
    const VALUE: usize = 24;

    proof fn lemma_output() {
    }
}

impl TypeSub<U<5>> for U<28> {
    type Output = U<23>;
    const VALUE: usize = 23;

    proof fn lemma_output() {
    }
}

impl TypeSub<U<6>> for U<28> {
    type Output = U<22>;
    const VALUE: usize = 22;

    proof fn lemma_output() {
    }
}

impl TypeSub<U<7>> for U<28> {
    type Output = U<21>;
    const VALUE: usize = 21;

    proof fn lemma_output() {
    }
}

impl TypeSub<U<8>> for U<28> {
    type Output = U<20>;
    const VALUE: usize = 20;

    proof fn lemma_output() {
    }
}

impl TypeSub<U<9>> for U<28> {
    type Output = U<19>;
    const VALUE: usize = 19;

    proof fn lemma_output() {
    }
}

impl TypeSub<U<10>> for U<28> {
    type Output = U<18>;
    const VALUE: usize = 18;

    proof fn lemma_output() {
    }
}

impl TypeSub<U<11>> for U<28> {
    type Output = U<17>;
    const VALUE: usize = 17;

    proof fn lemma_output() {
    }
}

impl TypeSub<U<12>> for U<28> {
    type Output = U<16>;
    const VALUE: usize = 16;

    proof fn lemma_output() {
    }
}

impl TypeSub<U<13>> for U<28> {
    type Output = U<15>;
    const VALUE: usize = 15;

    proof fn lemma_output() {
    }
}

impl TypeSub<U<14>> for U<28> {
    type Output = U<14>;
    const VALUE: usize = 14;

    proof fn lemma_output() {
    }
}

impl TypeSub<U<15>> for U<28> {
    type Output = U<13>;
    const VALUE: usize = 13;

    proof fn lemma_output() {
    }
}

impl TypeSub<U<16>> for U<28> {
    type Output = U<12>;
    const VALUE: usize = 12;

    proof fn lemma_output() {
    }
}

impl TypeSub<U<17>> for U<28> {
    type Output = U<11>;
    const VALUE: usize = 11;

    proof fn lemma_output() {
    }
}

impl TypeSub<U<18>> for U<28> {
    type Output = U<10>;
    const VALUE: usize = 10;

    proof fn lemma_output() {
    }
}

impl TypeSub<U<19>> for U<28> {
    type Output = U<9>;
    const VALUE: usize = 9;

    proof fn lemma_output() {
    }
}

impl TypeSub<U<20>> for U<28> {
    type Output = U<8>;
    const VALUE: usize = 8;

    proof fn lemma_output() {
    }
}

impl TypeSub<U<21>> for U<28> {
    type Output = U<7>;
    const VALUE: usize = 7;

    proof fn lemma_output() {
    }
}

impl TypeSub<U<22>> for U<28> {
    type Output = U<6>;
    const VALUE: usize = 6;

    proof fn lemma_output() {
    }
}

impl TypeSub<U<23>> for U<28> {
    type Output = U<5>;
    const VALUE: usize = 5;

    proof fn lemma_output() {
    }
}

impl TypeSub<U<24>> for U<28> {
    type Output = U<4>;
    const VALUE: usize = 4;

    proof fn lemma_output() {
    }
}

impl TypeSub<U<25>> for U<28> {
    type Output = U<3>;
    const VALUE: usize = 3;

    proof fn lemma_output() {
    }
}

impl TypeSub<U<26>> for U<28> {
    type Output = U<2>;
    const VALUE: usize = 2;

    proof fn lemma_output() {
    }
}

impl TypeSub<U<27>> for U<28> {
    type Output = U<1>;
    const VALUE: usize = 1;

    proof fn lemma_output() {
    }
}

impl TypeSub<U<28>> for U<28> {
    type Output = U<0>;
    const VALUE: usize = 0;

    proof fn lemma_output() {
    }
}

impl TypeSub<U<0>> for U<29> {
    type Output = U<29>;
    const VALUE: usize = 29;

    proof fn lemma_output() {
    }
}

impl TypeSub<U<1>> for U<29> {
    type Output = U<28>;
    const VALUE: usize = 28;

    proof fn lemma_output() {
    }
}

impl TypeSub<U<2>> for U<29> {
    type Output = U<27>;
    const VALUE: usize = 27;

    proof fn lemma_output() {
    }
}

impl TypeSub<U<3>> for U<29> {
    type Output = U<26>;
    const VALUE: usize = 26;

    proof fn lemma_output() {
    }
}

impl TypeSub<U<4>> for U<29> {
    type Output = U<25>;
    const VALUE: usize = 25;

    proof fn lemma_output() {
    }
}

impl TypeSub<U<5>> for U<29> {
    type Output = U<24>;
    const VALUE: usize = 24;

    proof fn lemma_output() {
    }
}

impl TypeSub<U<6>> for U<29> {
    type Output = U<23>;
    const VALUE: usize = 23;

    proof fn lemma_output() {
    }
}

impl TypeSub<U<7>> for U<29> {
    type Output = U<22>;
    const VALUE: usize = 22;

    proof fn lemma_output() {
    }
}

impl TypeSub<U<8>> for U<29> {
    type Output = U<21>;
    const VALUE: usize = 21;

    proof fn lemma_output() {
    }
}

impl TypeSub<U<9>> for U<29> {
    type Output = U<20>;
    const VALUE: usize = 20;

    proof fn lemma_output() {
    }
}

impl TypeSub<U<10>> for U<29> {
    type Output = U<19>;
    const VALUE: usize = 19;

    proof fn lemma_output() {
    }
}

impl TypeSub<U<11>> for U<29> {
    type Output = U<18>;
    const VALUE: usize = 18;

    proof fn lemma_output() {
    }
}

impl TypeSub<U<12>> for U<29> {
    type Output = U<17>;
    const VALUE: usize = 17;

    proof fn lemma_output() {
    }
}

impl TypeSub<U<13>> for U<29> {
    type Output = U<16>;
    const VALUE: usize = 16;

    proof fn lemma_output() {
    }
}

impl TypeSub<U<14>> for U<29> {
    type Output = U<15>;
    const VALUE: usize = 15;

    proof fn lemma_output() {
    }
}

impl TypeSub<U<15>> for U<29> {
    type Output = U<14>;
    const VALUE: usize = 14;

    proof fn lemma_output() {
    }
}

impl TypeSub<U<16>> for U<29> {
    type Output = U<13>;
    const VALUE: usize = 13;

    proof fn lemma_output() {
    }
}

impl TypeSub<U<17>> for U<29> {
    type Output = U<12>;
    const VALUE: usize = 12;

    proof fn lemma_output() {
    }
}

impl TypeSub<U<18>> for U<29> {
    type Output = U<11>;
    const VALUE: usize = 11;

    proof fn lemma_output() {
    }
}

impl TypeSub<U<19>> for U<29> {
    type Output = U<10>;
    const VALUE: usize = 10;

    proof fn lemma_output() {
    }
}

impl TypeSub<U<20>> for U<29> {
    type Output = U<9>;
    const VALUE: usize = 9;

    proof fn lemma_output() {
    }
}

impl TypeSub<U<21>> for U<29> {
    type Output = U<8>;
    const VALUE: usize = 8;

    proof fn lemma_output() {
    }
}

impl TypeSub<U<22>> for U<29> {
    type Output = U<7>;
    const VALUE: usize = 7;

    proof fn lemma_output() {
    }
}

impl TypeSub<U<23>> for U<29> {
    type Output = U<6>;
    const VALUE: usize = 6;

    proof fn lemma_output() {
    }
}

impl TypeSub<U<24>> for U<29> {
    type Output = U<5>;
    const VALUE: usize = 5;

    proof fn lemma_output() {
    }
}

impl TypeSub<U<25>> for U<29> {
    type Output = U<4>;
    const VALUE: usize = 4;

    proof fn lemma_output() {
    }
}

impl TypeSub<U<26>> for U<29> {
    type Output = U<3>;
    const VALUE: usize = 3;

    proof fn lemma_output() {
    }
}

impl TypeSub<U<27>> for U<29> {
    type Output = U<2>;
    const VALUE: usize = 2;

    proof fn lemma_output() {
    }
}

impl TypeSub<U<28>> for U<29> {
    type Output = U<1>;
    const VALUE: usize = 1;

    proof fn lemma_output() {
    }
}

impl TypeSub<U<29>> for U<29> {
    type Output = U<0>;
    const VALUE: usize = 0;

    proof fn lemma_output() {
    }
}

impl TypeSub<U<0>> for U<30> {
    type Output = U<30>;
    const VALUE: usize = 30;

    proof fn lemma_output() {
    }
}

impl TypeSub<U<1>> for U<30> {
    type Output = U<29>;
    const VALUE: usize = 29;

    proof fn lemma_output() {
    }
}

impl TypeSub<U<2>> for U<30> {
    type Output = U<28>;
    const VALUE: usize = 28;

    proof fn lemma_output() {
    }
}

impl TypeSub<U<3>> for U<30> {
    type Output = U<27>;
    const VALUE: usize = 27;

    proof fn lemma_output() {
    }
}

impl TypeSub<U<4>> for U<30> {
    type Output = U<26>;
    const VALUE: usize = 26;

    proof fn lemma_output() {
    }
}

impl TypeSub<U<5>> for U<30> {
    type Output = U<25>;
    const VALUE: usize = 25;

    proof fn lemma_output() {
    }
}

impl TypeSub<U<6>> for U<30> {
    type Output = U<24>;
    const VALUE: usize = 24;

    proof fn lemma_output() {
    }
}

impl TypeSub<U<7>> for U<30> {
    type Output = U<23>;
    const VALUE: usize = 23;

    proof fn lemma_output() {
    }
}

impl TypeSub<U<8>> for U<30> {
    type Output = U<22>;
    const VALUE: usize = 22;

    proof fn lemma_output() {
    }
}

impl TypeSub<U<9>> for U<30> {
    type Output = U<21>;
    const VALUE: usize = 21;

    proof fn lemma_output() {
    }
}

impl TypeSub<U<10>> for U<30> {
    type Output = U<20>;
    const VALUE: usize = 20;

    proof fn lemma_output() {
    }
}

impl TypeSub<U<11>> for U<30> {
    type Output = U<19>;
    const VALUE: usize = 19;

    proof fn lemma_output() {
    }
}

impl TypeSub<U<12>> for U<30> {
    type Output = U<18>;
    const VALUE: usize = 18;

    proof fn lemma_output() {
    }
}

impl TypeSub<U<13>> for U<30> {
    type Output = U<17>;
    const VALUE: usize = 17;

    proof fn lemma_output() {
    }
}

impl TypeSub<U<14>> for U<30> {
    type Output = U<16>;
    const VALUE: usize = 16;

    proof fn lemma_output() {
    }
}

impl TypeSub<U<15>> for U<30> {
    type Output = U<15>;
    const VALUE: usize = 15;

    proof fn lemma_output() {
    }
}

impl TypeSub<U<16>> for U<30> {
    type Output = U<14>;
    const VALUE: usize = 14;

    proof fn lemma_output() {
    }
}

impl TypeSub<U<17>> for U<30> {
    type Output = U<13>;
    const VALUE: usize = 13;

    proof fn lemma_output() {
    }
}

impl TypeSub<U<18>> for U<30> {
    type Output = U<12>;
    const VALUE: usize = 12;

    proof fn lemma_output() {
    }
}

impl TypeSub<U<19>> for U<30> {
    type Output = U<11>;
    const VALUE: usize = 11;

    proof fn lemma_output() {
    }
}

impl TypeSub<U<20>> for U<30> {
    type Output = U<10>;
    const VALUE: usize = 10;

    proof fn lemma_output() {
    }
}

impl TypeSub<U<21>> for U<30> {
    type Output = U<9>;
    const VALUE: usize = 9;

    proof fn lemma_output() {
    }
}

impl TypeSub<U<22>> for U<30> {
    type Output = U<8>;
    const VALUE: usize = 8;

    proof fn lemma_output() {
    }
}

impl TypeSub<U<23>> for U<30> {
    type Output = U<7>;
    const VALUE: usize = 7;

    proof fn lemma_output() {
    }
}

impl TypeSub<U<24>> for U<30> {
    type Output = U<6>;
    const VALUE: usize = 6;

    proof fn lemma_output() {
    }
}

impl TypeSub<U<25>> for U<30> {
    type Output = U<5>;
    const VALUE: usize = 5;

    proof fn lemma_output() {
    }
}

impl TypeSub<U<26>> for U<30> {
    type Output = U<4>;
    const VALUE: usize = 4;

    proof fn lemma_output() {
    }
}

impl TypeSub<U<27>> for U<30> {
    type Output = U<3>;
    const VALUE: usize = 3;

    proof fn lemma_output() {
    }
}

impl TypeSub<U<28>> for U<30> {
    type Output = U<2>;
    const VALUE: usize = 2;

    proof fn lemma_output() {
    }
}

impl TypeSub<U<29>> for U<30> {
    type Output = U<1>;
    const VALUE: usize = 1;

    proof fn lemma_output() {
    }
}

impl TypeSub<U<30>> for U<30> {
    type Output = U<0>;
    const VALUE: usize = 0;

    proof fn lemma_output() {
    }
}

impl TypeSub<U<0>> for U<31> {
    type Output = U<31>;
    const VALUE: usize = 31;

    proof fn lemma_output() {
    }
}

impl TypeSub<U<1>> for U<31> {
    type Output = U<30>;
    const VALUE: usize = 30;

    proof fn lemma_output() {
    }
}

impl TypeSub<U<2>> for U<31> {
    type Output = U<29>;
    const VALUE: usize = 29;

    proof fn lemma_output() {
    }
}

impl TypeSub<U<3>> for U<31> {
    type Output = U<28>;
    const VALUE: usize = 28;

    proof fn lemma_output() {
    }
}

impl TypeSub<U<4>> for U<31> {
    type Output = U<27>;
    const VALUE: usize = 27;

    proof fn lemma_output() {
    }
}

impl TypeSub<U<5>> for U<31> {
    type Output = U<26>;
    const VALUE: usize = 26;

    proof fn lemma_output() {
    }
}

impl TypeSub<U<6>> for U<31> {
    type Output = U<25>;
    const VALUE: usize = 25;

    proof fn lemma_output() {
    }
}

impl TypeSub<U<7>> for U<31> {
    type Output = U<24>;
    const VALUE: usize = 24;

    proof fn lemma_output() {
    }
}

impl TypeSub<U<8>> for U<31> {
    type Output = U<23>;
    const VALUE: usize = 23;

    proof fn lemma_output() {
    }
}

impl TypeSub<U<9>> for U<31> {
    type Output = U<22>;
    const VALUE: usize = 22;

    proof fn lemma_output() {
    }
}

impl TypeSub<U<10>> for U<31> {
    type Output = U<21>;
    const VALUE: usize = 21;

    proof fn lemma_output() {
    }
}

impl TypeSub<U<11>> for U<31> {
    type Output = U<20>;
    const VALUE: usize = 20;

    proof fn lemma_output() {
    }
}

impl TypeSub<U<12>> for U<31> {
    type Output = U<19>;
    const VALUE: usize = 19;

    proof fn lemma_output() {
    }
}

impl TypeSub<U<13>> for U<31> {
    type Output = U<18>;
    const VALUE: usize = 18;

    proof fn lemma_output() {
    }
}

impl TypeSub<U<14>> for U<31> {
    type Output = U<17>;
    const VALUE: usize = 17;

    proof fn lemma_output() {
    }
}

impl TypeSub<U<15>> for U<31> {
    type Output = U<16>;
    const VALUE: usize = 16;

    proof fn lemma_output() {
    }
}

impl TypeSub<U<16>> for U<31> {
    type Output = U<15>;
    const VALUE: usize = 15;

    proof fn lemma_output() {
    }
}

impl TypeSub<U<17>> for U<31> {
    type Output = U<14>;
    const VALUE: usize = 14;

    proof fn lemma_output() {
    }
}

impl TypeSub<U<18>> for U<31> {
    type Output = U<13>;
    const VALUE: usize = 13;

    proof fn lemma_output() {
    }
}

impl TypeSub<U<19>> for U<31> {
    type Output = U<12>;
    const VALUE: usize = 12;

    proof fn lemma_output() {
    }
}

impl TypeSub<U<20>> for U<31> {
    type Output = U<11>;
    const VALUE: usize = 11;

    proof fn lemma_output() {
    }
}

impl TypeSub<U<21>> for U<31> {
    type Output = U<10>;
    const VALUE: usize = 10;

    proof fn lemma_output() {
    }
}

impl TypeSub<U<22>> for U<31> {
    type Output = U<9>;
    const VALUE: usize = 9;

    proof fn lemma_output() {
    }
}

impl TypeSub<U<23>> for U<31> {
    type Output = U<8>;
    const VALUE: usize = 8;

    proof fn lemma_output() {
    }
}

impl TypeSub<U<24>> for U<31> {
    type Output = U<7>;
    const VALUE: usize = 7;

    proof fn lemma_output() {
    }
}

impl TypeSub<U<25>> for U<31> {
    type Output = U<6>;
    const VALUE: usize = 6;

    proof fn lemma_output() {
    }
}

impl TypeSub<U<26>> for U<31> {
    type Output = U<5>;
    const VALUE: usize = 5;

    proof fn lemma_output() {
    }
}

impl TypeSub<U<27>> for U<31> {
    type Output = U<4>;
    const VALUE: usize = 4;

    proof fn lemma_output() {
    }
}

impl TypeSub<U<28>> for U<31> {
    type Output = U<3>;
    const VALUE: usize = 3;

    proof fn lemma_output() {
    }
}

impl TypeSub<U<29>> for U<31> {
    type Output = U<2>;
    const VALUE: usize = 2;

    proof fn lemma_output() {
    }
}

impl TypeSub<U<30>> for U<31> {
    type Output = U<1>;
    const VALUE: usize = 1;

    proof fn lemma_output() {
    }
}

impl TypeSub<U<31>> for U<31> {
    type Output = U<0>;
    const VALUE: usize = 0;

    proof fn lemma_output() {
    }
}

impl TypeMul<U<0>> for U<0> {
    type Output = U<0>;
    const VALUE: usize = 0;

    proof fn lemma_output() {
    }
}

impl TypeMul<U<1>> for U<0> {
    type Output = U<0>;
    const VALUE: usize = 0;

    proof fn lemma_output() {
    }
}

impl TypeMul<U<2>> for U<0> {
    type Output = U<0>;
    const VALUE: usize = 0;

    proof fn lemma_output() {
    }
}

impl TypeMul<U<3>> for U<0> {
    type Output = U<0>;
    const VALUE: usize = 0;

    proof fn lemma_output() {
    }
}

impl TypeMul<U<4>> for U<0> {
    type Output = U<0>;
    const VALUE: usize = 0;

    proof fn lemma_output() {
    }
}

impl TypeMul<U<5>> for U<0> {
    type Output = U<0>;
    const VALUE: usize = 0;

    proof fn lemma_output() {
    }
}

impl TypeMul<U<6>> for U<0> {
    type Output = U<0>;
    const VALUE: usize = 0;

    proof fn lemma_output() {
    }
}

impl TypeMul<U<7>> for U<0> {
    type Output = U<0>;
    const VALUE: usize = 0;

    proof fn lemma_output() {
    }
}

impl TypeMul<U<8>> for U<0> {
    type Output = U<0>;
    const VALUE: usize = 0;

    proof fn lemma_output() {
    }
}

impl TypeMul<U<9>> for U<0> {
    type Output = U<0>;
    const VALUE: usize = 0;

    proof fn lemma_output() {
    }
}

impl TypeMul<U<10>> for U<0> {
    type Output = U<0>;
    const VALUE: usize = 0;

    proof fn lemma_output() {
    }
}

impl TypeMul<U<11>> for U<0> {
    type Output = U<0>;
    const VALUE: usize = 0;

    proof fn lemma_output() {
    }
}

impl TypeMul<U<12>> for U<0> {
    type Output = U<0>;
    const VALUE: usize = 0;

    proof fn lemma_output() {
    }
}

impl TypeMul<U<13>> for U<0> {
    type Output = U<0>;
    const VALUE: usize = 0;

    proof fn lemma_output() {
    }
}

impl TypeMul<U<14>> for U<0> {
    type Output = U<0>;
    const VALUE: usize = 0;

    proof fn lemma_output() {
    }
}

impl TypeMul<U<15>> for U<0> {
    type Output = U<0>;
    const VALUE: usize = 0;

    proof fn lemma_output() {
    }
}

impl TypeMul<U<16>> for U<0> {
    type Output = U<0>;
    const VALUE: usize = 0;

    proof fn lemma_output() {
    }
}

impl TypeMul<U<17>> for U<0> {
    type Output = U<0>;
    const VALUE: usize = 0;

    proof fn lemma_output() {
    }
}

impl TypeMul<U<18>> for U<0> {
    type Output = U<0>;
    const VALUE: usize = 0;

    proof fn lemma_output() {
    }
}

impl TypeMul<U<19>> for U<0> {
    type Output = U<0>;
    const VALUE: usize = 0;

    proof fn lemma_output() {
    }
}

impl TypeMul<U<20>> for U<0> {
    type Output = U<0>;
    const VALUE: usize = 0;

    proof fn lemma_output() {
    }
}

impl TypeMul<U<21>> for U<0> {
    type Output = U<0>;
    const VALUE: usize = 0;

    proof fn lemma_output() {
    }
}

impl TypeMul<U<22>> for U<0> {
    type Output = U<0>;
    const VALUE: usize = 0;

    proof fn lemma_output() {
    }
}

impl TypeMul<U<23>> for U<0> {
    type Output = U<0>;
    const VALUE: usize = 0;

    proof fn lemma_output() {
    }
}

impl TypeMul<U<24>> for U<0> {
    type Output = U<0>;
    const VALUE: usize = 0;

    proof fn lemma_output() {
    }
}

impl TypeMul<U<25>> for U<0> {
    type Output = U<0>;
    const VALUE: usize = 0;

    proof fn lemma_output() {
    }
}

impl TypeMul<U<26>> for U<0> {
    type Output = U<0>;
    const VALUE: usize = 0;

    proof fn lemma_output() {
    }
}

impl TypeMul<U<27>> for U<0> {
    type Output = U<0>;
    const VALUE: usize = 0;

    proof fn lemma_output() {
    }
}

impl TypeMul<U<28>> for U<0> {
    type Output = U<0>;
    const VALUE: usize = 0;

    proof fn lemma_output() {
    }
}

impl TypeMul<U<29>> for U<0> {
    type Output = U<0>;
    const VALUE: usize = 0;

    proof fn lemma_output() {
    }
}

impl TypeMul<U<30>> for U<0> {
    type Output = U<0>;
    const VALUE: usize = 0;

    proof fn lemma_output() {
    }
}

impl TypeMul<U<31>> for U<0> {
    type Output = U<0>;
    const VALUE: usize = 0;

    proof fn lemma_output() {
    }
}

impl TypeMul<U<0>> for U<1> {
    type Output = U<0>;
    const VALUE: usize = 0;

    proof fn lemma_output() {
    }
}

impl TypeMul<U<1>> for U<1> {
    type Output = U<1>;
    const VALUE: usize = 1;

    proof fn lemma_output() {
    }
}

impl TypeMul<U<2>> for U<1> {
    type Output = U<2>;
    const VALUE: usize = 2;

    proof fn lemma_output() {
    }
}

impl TypeMul<U<3>> for U<1> {
    type Output = U<3>;
    const VALUE: usize = 3;

    proof fn lemma_output() {
    }
}

impl TypeMul<U<4>> for U<1> {
    type Output = U<4>;
    const VALUE: usize = 4;

    proof fn lemma_output() {
    }
}

impl TypeMul<U<5>> for U<1> {
    type Output = U<5>;
    const VALUE: usize = 5;

    proof fn lemma_output() {
    }
}

impl TypeMul<U<6>> for U<1> {
    type Output = U<6>;
    const VALUE: usize = 6;

    proof fn lemma_output() {
    }
}

impl TypeMul<U<7>> for U<1> {
    type Output = U<7>;
    const VALUE: usize = 7;

    proof fn lemma_output() {
    }
}

impl TypeMul<U<8>> for U<1> {
    type Output = U<8>;
    const VALUE: usize = 8;

    proof fn lemma_output() {
    }
}

impl TypeMul<U<9>> for U<1> {
    type Output = U<9>;
    const VALUE: usize = 9;

    proof fn lemma_output() {
    }
}

impl TypeMul<U<10>> for U<1> {
    type Output = U<10>;
    const VALUE: usize = 10;

    proof fn lemma_output() {
    }
}

impl TypeMul<U<11>> for U<1> {
    type Output = U<11>;
    const VALUE: usize = 11;

    proof fn lemma_output() {
    }
}

impl TypeMul<U<12>> for U<1> {
    type Output = U<12>;
    const VALUE: usize = 12;

    proof fn lemma_output() {
    }
}

impl TypeMul<U<13>> for U<1> {
    type Output = U<13>;
    const VALUE: usize = 13;

    proof fn lemma_output() {
    }
}

impl TypeMul<U<14>> for U<1> {
    type Output = U<14>;
    const VALUE: usize = 14;

    proof fn lemma_output() {
    }
}

impl TypeMul<U<15>> for U<1> {
    type Output = U<15>;
    const VALUE: usize = 15;

    proof fn lemma_output() {
    }
}

impl TypeMul<U<16>> for U<1> {
    type Output = U<16>;
    const VALUE: usize = 16;

    proof fn lemma_output() {
    }
}

impl TypeMul<U<17>> for U<1> {
    type Output = U<17>;
    const VALUE: usize = 17;

    proof fn lemma_output() {
    }
}

impl TypeMul<U<18>> for U<1> {
    type Output = U<18>;
    const VALUE: usize = 18;

    proof fn lemma_output() {
    }
}

impl TypeMul<U<19>> for U<1> {
    type Output = U<19>;
    const VALUE: usize = 19;

    proof fn lemma_output() {
    }
}

impl TypeMul<U<20>> for U<1> {
    type Output = U<20>;
    const VALUE: usize = 20;

    proof fn lemma_output() {
    }
}

impl TypeMul<U<21>> for U<1> {
    type Output = U<21>;
    const VALUE: usize = 21;

    proof fn lemma_output() {
    }
}

impl TypeMul<U<22>> for U<1> {
    type Output = U<22>;
    const VALUE: usize = 22;

    proof fn lemma_output() {
    }
}

impl TypeMul<U<23>> for U<1> {
    type Output = U<23>;
    const VALUE: usize = 23;

    proof fn lemma_output() {
    }
}

impl TypeMul<U<24>> for U<1> {
    type Output = U<24>;
    const VALUE: usize = 24;

    proof fn lemma_output() {
    }
}

impl TypeMul<U<25>> for U<1> {
    type Output = U<25>;
    const VALUE: usize = 25;

    proof fn lemma_output() {
    }
}

impl TypeMul<U<26>> for U<1> {
    type Output = U<26>;
    const VALUE: usize = 26;

    proof fn lemma_output() {
    }
}

impl TypeMul<U<27>> for U<1> {
    type Output = U<27>;
    const VALUE: usize = 27;

    proof fn lemma_output() {
    }
}

impl TypeMul<U<28>> for U<1> {
    type Output = U<28>;
    const VALUE: usize = 28;

    proof fn lemma_output() {
    }
}

impl TypeMul<U<29>> for U<1> {
    type Output = U<29>;
    const VALUE: usize = 29;

    proof fn lemma_output() {
    }
}

impl TypeMul<U<30>> for U<1> {
    type Output = U<30>;
    const VALUE: usize = 30;

    proof fn lemma_output() {
    }
}

impl TypeMul<U<31>> for U<1> {
    type Output = U<31>;
    const VALUE: usize = 31;

    proof fn lemma_output() {
    }
}

impl TypeMul<U<0>> for U<2> {
    type Output = U<0>;
    const VALUE: usize = 0;

    proof fn lemma_output() {
    }
}

impl TypeMul<U<1>> for U<2> {
    type Output = U<2>;
    const VALUE: usize = 2;

    proof fn lemma_output() {
    }
}

impl TypeMul<U<2>> for U<2> {
    type Output = U<4>;
    const VALUE: usize = 4;

    proof fn lemma_output() {
    }
}

impl TypeMul<U<3>> for U<2> {
    type Output = U<6>;
    const VALUE: usize = 6;

    proof fn lemma_output() {
    }
}

impl TypeMul<U<4>> for U<2> {
    type Output = U<8>;
    const VALUE: usize = 8;

    proof fn lemma_output() {
    }
}

impl TypeMul<U<5>> for U<2> {
    type Output = U<10>;
    const VALUE: usize = 10;

    proof fn lemma_output() {
    }
}

impl TypeMul<U<6>> for U<2> {
    type Output = U<12>;
    const VALUE: usize = 12;

    proof fn lemma_output() {
    }
}

impl TypeMul<U<7>> for U<2> {
    type Output = U<14>;
    const VALUE: usize = 14;

    proof fn lemma_output() {
    }
}

impl TypeMul<U<8>> for U<2> {
    type Output = U<16>;
    const VALUE: usize = 16;

    proof fn lemma_output() {
    }
}

impl TypeMul<U<9>> for U<2> {
    type Output = U<18>;
    const VALUE: usize = 18;

    proof fn lemma_output() {
    }
}

impl TypeMul<U<10>> for U<2> {
    type Output = U<20>;
    const VALUE: usize = 20;

    proof fn lemma_output() {
    }
}

impl TypeMul<U<11>> for U<2> {
    type Output = U<22>;
    const VALUE: usize = 22;

    proof fn lemma_output() {
    }
}

impl TypeMul<U<12>> for U<2> {
    type Output = U<24>;
    const VALUE: usize = 24;

    proof fn lemma_output() {
    }
}

impl TypeMul<U<13>> for U<2> {
    type Output = U<26>;
    const VALUE: usize = 26;

    proof fn lemma_output() {
    }
}

impl TypeMul<U<14>> for U<2> {
    type Output = U<28>;
    const VALUE: usize = 28;

    proof fn lemma_output() {
    }
}

impl TypeMul<U<15>> for U<2> {
    type Output = U<30>;
    const VALUE: usize = 30;

    proof fn lemma_output() {
    }
}

impl TypeMul<U<16>> for U<2> {
    type Output = U<32>;
    const VALUE: usize = 32;

    proof fn lemma_output() {
    }
}

impl TypeMul<U<17>> for U<2> {
    type Output = U<34>;
    const VALUE: usize = 34;

    proof fn lemma_output() {
    }
}

impl TypeMul<U<18>> for U<2> {
    type Output = U<36>;
    const VALUE: usize = 36;

    proof fn lemma_output() {
    }
}

impl TypeMul<U<19>> for U<2> {
    type Output = U<38>;
    const VALUE: usize = 38;

    proof fn lemma_output() {
    }
}

impl TypeMul<U<20>> for U<2> {
    type Output = U<40>;
    const VALUE: usize = 40;

    proof fn lemma_output() {
    }
}

impl TypeMul<U<21>> for U<2> {
    type Output = U<42>;
    const VALUE: usize = 42;

    proof fn lemma_output() {
    }
}

impl TypeMul<U<22>> for U<2> {
    type Output = U<44>;
    const VALUE: usize = 44;

    proof fn lemma_output() {
    }
}

impl TypeMul<U<23>> for U<2> {
    type Output = U<46>;
    const VALUE: usize = 46;

    proof fn lemma_output() {
    }
}

impl TypeMul<U<24>> for U<2> {
    type Output = U<48>;
    const VALUE: usize = 48;

    proof fn lemma_output() {
    }
}

impl TypeMul<U<25>> for U<2> {
    type Output = U<50>;
    const VALUE: usize = 50;

    proof fn lemma_output() {
    }
}

impl TypeMul<U<26>> for U<2> {
    type Output = U<52>;
    const VALUE: usize = 52;

    proof fn lemma_output() {
    }
}

impl TypeMul<U<27>> for U<2> {
    type Output = U<54>;
    const VALUE: usize = 54;

    proof fn lemma_output() {
    }
}

impl TypeMul<U<28>> for U<2> {
    type Output = U<56>;
    const VALUE: usize = 56;

    proof fn lemma_output() {
    }
}

impl TypeMul<U<29>> for U<2> {
    type Output = U<58>;
    const VALUE: usize = 58;

    proof fn lemma_output() {
    }
}

impl TypeMul<U<30>> for U<2> {
    type Output = U<60>;
    const VALUE: usize = 60;

    proof fn lemma_output() {
    }
}

impl TypeMul<U<31>> for U<2> {
    type Output = U<62>;
    const VALUE: usize = 62;

    proof fn lemma_output() {
    }
}

impl TypeMul<U<0>> for U<3> {
    type Output = U<0>;
    const VALUE: usize = 0;

    proof fn lemma_output() {
    }
}

impl TypeMul<U<1>> for U<3> {
    type Output = U<3>;
    const VALUE: usize = 3;

    proof fn lemma_output() {
    }
}

impl TypeMul<U<2>> for U<3> {
    type Output = U<6>;
    const VALUE: usize = 6;

    proof fn lemma_output() {
    }
}

impl TypeMul<U<3>> for U<3> {
    type Output = U<9>;
    const VALUE: usize = 9;

    proof fn lemma_output() {
    }
}

impl TypeMul<U<4>> for U<3> {
    type Output = U<12>;
    const VALUE: usize = 12;

    proof fn lemma_output() {
    }
}

impl TypeMul<U<5>> for U<3> {
    type Output = U<15>;
    const VALUE: usize = 15;

    proof fn lemma_output() {
    }
}

impl TypeMul<U<6>> for U<3> {
    type Output = U<18>;
    const VALUE: usize = 18;

    proof fn lemma_output() {
    }
}

impl TypeMul<U<7>> for U<3> {
    type Output = U<21>;
    const VALUE: usize = 21;

    proof fn lemma_output() {
    }
}

impl TypeMul<U<8>> for U<3> {
    type Output = U<24>;
    const VALUE: usize = 24;

    proof fn lemma_output() {
    }
}

impl TypeMul<U<9>> for U<3> {
    type Output = U<27>;
    const VALUE: usize = 27;

    proof fn lemma_output() {
    }
}

impl TypeMul<U<10>> for U<3> {
    type Output = U<30>;
    const VALUE: usize = 30;

    proof fn lemma_output() {
    }
}

impl TypeMul<U<11>> for U<3> {
    type Output = U<33>;
    const VALUE: usize = 33;

    proof fn lemma_output() {
    }
}

impl TypeMul<U<12>> for U<3> {
    type Output = U<36>;
    const VALUE: usize = 36;

    proof fn lemma_output() {
    }
}

impl TypeMul<U<13>> for U<3> {
    type Output = U<39>;
    const VALUE: usize = 39;

    proof fn lemma_output() {
    }
}

impl TypeMul<U<14>> for U<3> {
    type Output = U<42>;
    const VALUE: usize = 42;

    proof fn lemma_output() {
    }
}

impl TypeMul<U<15>> for U<3> {
    type Output = U<45>;
    const VALUE: usize = 45;

    proof fn lemma_output() {
    }
}

impl TypeMul<U<16>> for U<3> {
    type Output = U<48>;
    const VALUE: usize = 48;

    proof fn lemma_output() {
    }
}

impl TypeMul<U<17>> for U<3> {
    type Output = U<51>;
    const VALUE: usize = 51;

    proof fn lemma_output() {
    }
}

impl TypeMul<U<18>> for U<3> {
    type Output = U<54>;
    const VALUE: usize = 54;

    proof fn lemma_output() {
    }
}

impl TypeMul<U<19>> for U<3> {
    type Output = U<57>;
    const VALUE: usize = 57;

    proof fn lemma_output() {
    }
}

impl TypeMul<U<20>> for U<3> {
    type Output = U<60>;
    const VALUE: usize = 60;

    proof fn lemma_output() {
    }
}

impl TypeMul<U<21>> for U<3> {
    type Output = U<63>;
    const VALUE: usize = 63;

    proof fn lemma_output() {
    }
}

impl TypeMul<U<22>> for U<3> {
    type Output = U<66>;
    const VALUE: usize = 66;

    proof fn lemma_output() {
    }
}

impl TypeMul<U<23>> for U<3> {
    type Output = U<69>;
    const VALUE: usize = 69;

    proof fn lemma_output() {
    }
}

impl TypeMul<U<24>> for U<3> {
    type Output = U<72>;
    const VALUE: usize = 72;

    proof fn lemma_output() {
    }
}

impl TypeMul<U<25>> for U<3> {
    type Output = U<75>;
    const VALUE: usize = 75;

    proof fn lemma_output() {
    }
}

impl TypeMul<U<26>> for U<3> {
    type Output = U<78>;
    const VALUE: usize = 78;

    proof fn lemma_output() {
    }
}

impl TypeMul<U<27>> for U<3> {
    type Output = U<81>;
    const VALUE: usize = 81;

    proof fn lemma_output() {
    }
}

impl TypeMul<U<28>> for U<3> {
    type Output = U<84>;
    const VALUE: usize = 84;

    proof fn lemma_output() {
    }
}

impl TypeMul<U<29>> for U<3> {
    type Output = U<87>;
    const VALUE: usize = 87;

    proof fn lemma_output() {
    }
}

impl TypeMul<U<30>> for U<3> {
    type Output = U<90>;
    const VALUE: usize = 90;

    proof fn lemma_output() {
    }
}

impl TypeMul<U<31>> for U<3> {
    type Output = U<93>;
    const VALUE: usize = 93;

    proof fn lemma_output() {
    }
}

impl TypeMul<U<0>> for U<4> {
    type Output = U<0>;
    const VALUE: usize = 0;

    proof fn lemma_output() {
    }
}

impl TypeMul<U<1>> for U<4> {
    type Output = U<4>;
    const VALUE: usize = 4;

    proof fn lemma_output() {
    }
}

impl TypeMul<U<2>> for U<4> {
    type Output = U<8>;
    const VALUE: usize = 8;

    proof fn lemma_output() {
    }
}

impl TypeMul<U<3>> for U<4> {
    type Output = U<12>;
    const VALUE: usize = 12;

    proof fn lemma_output() {
    }
}

impl TypeMul<U<4>> for U<4> {
    type Output = U<16>;
    const VALUE: usize = 16;

    proof fn lemma_output() {
    }
}

impl TypeMul<U<5>> for U<4> {
    type Output = U<20>;
    const VALUE: usize = 20;

    proof fn lemma_output() {
    }
}

impl TypeMul<U<6>> for U<4> {
    type Output = U<24>;
    const VALUE: usize = 24;

    proof fn lemma_output() {
    }
}

impl TypeMul<U<7>> for U<4> {
    type Output = U<28>;
    const VALUE: usize = 28;

    proof fn lemma_output() {
    }
}

impl TypeMul<U<8>> for U<4> {
    type Output = U<32>;
    const VALUE: usize = 32;

    proof fn lemma_output() {
    }
}

impl TypeMul<U<9>> for U<4> {
    type Output = U<36>;
    const VALUE: usize = 36;

    proof fn lemma_output() {
    }
}

impl TypeMul<U<10>> for U<4> {
    type Output = U<40>;
    const VALUE: usize = 40;

    proof fn lemma_output() {
    }
}

impl TypeMul<U<11>> for U<4> {
    type Output = U<44>;
    const VALUE: usize = 44;

    proof fn lemma_output() {
    }
}

impl TypeMul<U<12>> for U<4> {
    type Output = U<48>;
    const VALUE: usize = 48;

    proof fn lemma_output() {
    }
}

impl TypeMul<U<13>> for U<4> {
    type Output = U<52>;
    const VALUE: usize = 52;

    proof fn lemma_output() {
    }
}

impl TypeMul<U<14>> for U<4> {
    type Output = U<56>;
    const VALUE: usize = 56;

    proof fn lemma_output() {
    }
}

impl TypeMul<U<15>> for U<4> {
    type Output = U<60>;
    const VALUE: usize = 60;

    proof fn lemma_output() {
    }
}

impl TypeMul<U<16>> for U<4> {
    type Output = U<64>;
    const VALUE: usize = 64;

    proof fn lemma_output() {
    }
}

impl TypeMul<U<17>> for U<4> {
    type Output = U<68>;
    const VALUE: usize = 68;

    proof fn lemma_output() {
    }
}

impl TypeMul<U<18>> for U<4> {
    type Output = U<72>;
    const VALUE: usize = 72;

    proof fn lemma_output() {
    }
}

impl TypeMul<U<19>> for U<4> {
    type Output = U<76>;
    const VALUE: usize = 76;

    proof fn lemma_output() {
    }
}

impl TypeMul<U<20>> for U<4> {
    type Output = U<80>;
    const VALUE: usize = 80;

    proof fn lemma_output() {
    }
}

impl TypeMul<U<21>> for U<4> {
    type Output = U<84>;
    const VALUE: usize = 84;

    proof fn lemma_output() {
    }
}

impl TypeMul<U<22>> for U<4> {
    type Output = U<88>;
    const VALUE: usize = 88;

    proof fn lemma_output() {
    }
}

impl TypeMul<U<23>> for U<4> {
    type Output = U<92>;
    const VALUE: usize = 92;

    proof fn lemma_output() {
    }
}

impl TypeMul<U<24>> for U<4> {
    type Output = U<96>;
    const VALUE: usize = 96;

    proof fn lemma_output() {
    }
}

impl TypeMul<U<25>> for U<4> {
    type Output = U<100>;
    const VALUE: usize = 100;

    proof fn lemma_output() {
    }
}

impl TypeMul<U<26>> for U<4> {
    type Output = U<104>;
    const VALUE: usize = 104;

    proof fn lemma_output() {
    }
}

impl TypeMul<U<27>> for U<4> {
    type Output = U<108>;
    const VALUE: usize = 108;

    proof fn lemma_output() {
    }
}

impl TypeMul<U<28>> for U<4> {
    type Output = U<112>;
    const VALUE: usize = 112;

    proof fn lemma_output() {
    }
}

impl TypeMul<U<29>> for U<4> {
    type Output = U<116>;
    const VALUE: usize = 116;

    proof fn lemma_output() {
    }
}

impl TypeMul<U<30>> for U<4> {
    type Output = U<120>;
    const VALUE: usize = 120;

    proof fn lemma_output() {
    }
}

impl TypeMul<U<31>> for U<4> {
    type Output = U<124>;
    const VALUE: usize = 124;

    proof fn lemma_output() {
    }
}

impl TypeMul<U<0>> for U<5> {
    type Output = U<0>;
    const VALUE: usize = 0;

    proof fn lemma_output() {
    }
}

impl TypeMul<U<1>> for U<5> {
    type Output = U<5>;
    const VALUE: usize = 5;

    proof fn lemma_output() {
    }
}

impl TypeMul<U<2>> for U<5> {
    type Output = U<10>;
    const VALUE: usize = 10;

    proof fn lemma_output() {
    }
}

impl TypeMul<U<3>> for U<5> {
    type Output = U<15>;
    const VALUE: usize = 15;

    proof fn lemma_output() {
    }
}

impl TypeMul<U<4>> for U<5> {
    type Output = U<20>;
    const VALUE: usize = 20;

    proof fn lemma_output() {
    }
}

impl TypeMul<U<5>> for U<5> {
    type Output = U<25>;
    const VALUE: usize = 25;

    proof fn lemma_output() {
    }
}

impl TypeMul<U<6>> for U<5> {
    type Output = U<30>;
    const VALUE: usize = 30;

    proof fn lemma_output() {
    }
}

impl TypeMul<U<7>> for U<5> {
    type Output = U<35>;
    const VALUE: usize = 35;

    proof fn lemma_output() {
    }
}

impl TypeMul<U<8>> for U<5> {
    type Output = U<40>;
    const VALUE: usize = 40;

    proof fn lemma_output() {
    }
}

impl TypeMul<U<9>> for U<5> {
    type Output = U<45>;
    const VALUE: usize = 45;

    proof fn lemma_output() {
    }
}

impl TypeMul<U<10>> for U<5> {
    type Output = U<50>;
    const VALUE: usize = 50;

    proof fn lemma_output() {
    }
}

impl TypeMul<U<11>> for U<5> {
    type Output = U<55>;
    const VALUE: usize = 55;

    proof fn lemma_output() {
    }
}

impl TypeMul<U<12>> for U<5> {
    type Output = U<60>;
    const VALUE: usize = 60;

    proof fn lemma_output() {
    }
}

impl TypeMul<U<13>> for U<5> {
    type Output = U<65>;
    const VALUE: usize = 65;

    proof fn lemma_output() {
    }
}

impl TypeMul<U<14>> for U<5> {
    type Output = U<70>;
    const VALUE: usize = 70;

    proof fn lemma_output() {
    }
}

impl TypeMul<U<15>> for U<5> {
    type Output = U<75>;
    const VALUE: usize = 75;

    proof fn lemma_output() {
    }
}

impl TypeMul<U<16>> for U<5> {
    type Output = U<80>;
    const VALUE: usize = 80;

    proof fn lemma_output() {
    }
}

impl TypeMul<U<17>> for U<5> {
    type Output = U<85>;
    const VALUE: usize = 85;

    proof fn lemma_output() {
    }
}

impl TypeMul<U<18>> for U<5> {
    type Output = U<90>;
    const VALUE: usize = 90;

    proof fn lemma_output() {
    }
}

impl TypeMul<U<19>> for U<5> {
    type Output = U<95>;
    const VALUE: usize = 95;

    proof fn lemma_output() {
    }
}

impl TypeMul<U<20>> for U<5> {
    type Output = U<100>;
    const VALUE: usize = 100;

    proof fn lemma_output() {
    }
}

impl TypeMul<U<21>> for U<5> {
    type Output = U<105>;
    const VALUE: usize = 105;

    proof fn lemma_output() {
    }
}

impl TypeMul<U<22>> for U<5> {
    type Output = U<110>;
    const VALUE: usize = 110;

    proof fn lemma_output() {
    }
}

impl TypeMul<U<23>> for U<5> {
    type Output = U<115>;
    const VALUE: usize = 115;

    proof fn lemma_output() {
    }
}

impl TypeMul<U<24>> for U<5> {
    type Output = U<120>;
    const VALUE: usize = 120;

    proof fn lemma_output() {
    }
}

impl TypeMul<U<25>> for U<5> {
    type Output = U<125>;
    const VALUE: usize = 125;

    proof fn lemma_output() {
    }
}

impl TypeMul<U<26>> for U<5> {
    type Output = U<130>;
    const VALUE: usize = 130;

    proof fn lemma_output() {
    }
}

impl TypeMul<U<27>> for U<5> {
    type Output = U<135>;
    const VALUE: usize = 135;

    proof fn lemma_output() {
    }
}

impl TypeMul<U<28>> for U<5> {
    type Output = U<140>;
    const VALUE: usize = 140;

    proof fn lemma_output() {
    }
}

impl TypeMul<U<29>> for U<5> {
    type Output = U<145>;
    const VALUE: usize = 145;

    proof fn lemma_output() {
    }
}

impl TypeMul<U<30>> for U<5> {
    type Output = U<150>;
    const VALUE: usize = 150;

    proof fn lemma_output() {
    }
}

impl TypeMul<U<31>> for U<5> {
    type Output = U<155>;
    const VALUE: usize = 155;

    proof fn lemma_output() {
    }
}

impl TypeMul<U<0>> for U<6> {
    type Output = U<0>;
    const VALUE: usize = 0;

    proof fn lemma_output() {
    }
}

impl TypeMul<U<1>> for U<6> {
    type Output = U<6>;
    const VALUE: usize = 6;

    proof fn lemma_output() {
    }
}

impl TypeMul<U<2>> for U<6> {
    type Output = U<12>;
    const VALUE: usize = 12;

    proof fn lemma_output() {
    }
}

impl TypeMul<U<3>> for U<6> {
    type Output = U<18>;
    const VALUE: usize = 18;

    proof fn lemma_output() {
    }
}

impl TypeMul<U<4>> for U<6> {
    type Output = U<24>;
    const VALUE: usize = 24;

    proof fn lemma_output() {
    }
}

impl TypeMul<U<5>> for U<6> {
    type Output = U<30>;
    const VALUE: usize = 30;

    proof fn lemma_output() {
    }
}

impl TypeMul<U<6>> for U<6> {
    type Output = U<36>;
    const VALUE: usize = 36;

    proof fn lemma_output() {
    }
}

impl TypeMul<U<7>> for U<6> {
    type Output = U<42>;
    const VALUE: usize = 42;

    proof fn lemma_output() {
    }
}

impl TypeMul<U<8>> for U<6> {
    type Output = U<48>;
    const VALUE: usize = 48;

    proof fn lemma_output() {
    }
}

impl TypeMul<U<9>> for U<6> {
    type Output = U<54>;
    const VALUE: usize = 54;

    proof fn lemma_output() {
    }
}

impl TypeMul<U<10>> for U<6> {
    type Output = U<60>;
    const VALUE: usize = 60;

    proof fn lemma_output() {
    }
}

impl TypeMul<U<11>> for U<6> {
    type Output = U<66>;
    const VALUE: usize = 66;

    proof fn lemma_output() {
    }
}

impl TypeMul<U<12>> for U<6> {
    type Output = U<72>;
    const VALUE: usize = 72;

    proof fn lemma_output() {
    }
}

impl TypeMul<U<13>> for U<6> {
    type Output = U<78>;
    const VALUE: usize = 78;

    proof fn lemma_output() {
    }
}

impl TypeMul<U<14>> for U<6> {
    type Output = U<84>;
    const VALUE: usize = 84;

    proof fn lemma_output() {
    }
}

impl TypeMul<U<15>> for U<6> {
    type Output = U<90>;
    const VALUE: usize = 90;

    proof fn lemma_output() {
    }
}

impl TypeMul<U<16>> for U<6> {
    type Output = U<96>;
    const VALUE: usize = 96;

    proof fn lemma_output() {
    }
}

impl TypeMul<U<17>> for U<6> {
    type Output = U<102>;
    const VALUE: usize = 102;

    proof fn lemma_output() {
    }
}

impl TypeMul<U<18>> for U<6> {
    type Output = U<108>;
    const VALUE: usize = 108;

    proof fn lemma_output() {
    }
}

impl TypeMul<U<19>> for U<6> {
    type Output = U<114>;
    const VALUE: usize = 114;

    proof fn lemma_output() {
    }
}

impl TypeMul<U<20>> for U<6> {
    type Output = U<120>;
    const VALUE: usize = 120;

    proof fn lemma_output() {
    }
}

impl TypeMul<U<21>> for U<6> {
    type Output = U<126>;
    const VALUE: usize = 126;

    proof fn lemma_output() {
    }
}

impl TypeMul<U<22>> for U<6> {
    type Output = U<132>;
    const VALUE: usize = 132;

    proof fn lemma_output() {
    }
}

impl TypeMul<U<23>> for U<6> {
    type Output = U<138>;
    const VALUE: usize = 138;

    proof fn lemma_output() {
    }
}

impl TypeMul<U<24>> for U<6> {
    type Output = U<144>;
    const VALUE: usize = 144;

    proof fn lemma_output() {
    }
}

impl TypeMul<U<25>> for U<6> {
    type Output = U<150>;
    const VALUE: usize = 150;

    proof fn lemma_output() {
    }
}

impl TypeMul<U<26>> for U<6> {
    type Output = U<156>;
    const VALUE: usize = 156;

    proof fn lemma_output() {
    }
}

impl TypeMul<U<27>> for U<6> {
    type Output = U<162>;
    const VALUE: usize = 162;

    proof fn lemma_output() {
    }
}

impl TypeMul<U<28>> for U<6> {
    type Output = U<168>;
    const VALUE: usize = 168;

    proof fn lemma_output() {
    }
}

impl TypeMul<U<29>> for U<6> {
    type Output = U<174>;
    const VALUE: usize = 174;

    proof fn lemma_output() {
    }
}

impl TypeMul<U<30>> for U<6> {
    type Output = U<180>;
    const VALUE: usize = 180;

    proof fn lemma_output() {
    }
}

impl TypeMul<U<31>> for U<6> {
    type Output = U<186>;
    const VALUE: usize = 186;

    proof fn lemma_output() {
    }
}

impl TypeMul<U<0>> for U<7> {
    type Output = U<0>;
    const VALUE: usize = 0;

    proof fn lemma_output() {
    }
}

impl TypeMul<U<1>> for U<7> {
    type Output = U<7>;
    const VALUE: usize = 7;

    proof fn lemma_output() {
    }
}

impl TypeMul<U<2>> for U<7> {
    type Output = U<14>;
    const VALUE: usize = 14;

    proof fn lemma_output() {
    }
}

impl TypeMul<U<3>> for U<7> {
    type Output = U<21>;
    const VALUE: usize = 21;

    proof fn lemma_output() {
    }
}

impl TypeMul<U<4>> for U<7> {
    type Output = U<28>;
    const VALUE: usize = 28;

    proof fn lemma_output() {
    }
}

impl TypeMul<U<5>> for U<7> {
    type Output = U<35>;
    const VALUE: usize = 35;

    proof fn lemma_output() {
    }
}

impl TypeMul<U<6>> for U<7> {
    type Output = U<42>;
    const VALUE: usize = 42;

    proof fn lemma_output() {
    }
}

impl TypeMul<U<7>> for U<7> {
    type Output = U<49>;
    const VALUE: usize = 49;

    proof fn lemma_output() {
    }
}

impl TypeMul<U<8>> for U<7> {
    type Output = U<56>;
    const VALUE: usize = 56;

    proof fn lemma_output() {
    }
}

impl TypeMul<U<9>> for U<7> {
    type Output = U<63>;
    const VALUE: usize = 63;

    proof fn lemma_output() {
    }
}

impl TypeMul<U<10>> for U<7> {
    type Output = U<70>;
    const VALUE: usize = 70;

    proof fn lemma_output() {
    }
}

impl TypeMul<U<11>> for U<7> {
    type Output = U<77>;
    const VALUE: usize = 77;

    proof fn lemma_output() {
    }
}

impl TypeMul<U<12>> for U<7> {
    type Output = U<84>;
    const VALUE: usize = 84;

    proof fn lemma_output() {
    }
}

impl TypeMul<U<13>> for U<7> {
    type Output = U<91>;
    const VALUE: usize = 91;

    proof fn lemma_output() {
    }
}

impl TypeMul<U<14>> for U<7> {
    type Output = U<98>;
    const VALUE: usize = 98;

    proof fn lemma_output() {
    }
}

impl TypeMul<U<15>> for U<7> {
    type Output = U<105>;
    const VALUE: usize = 105;

    proof fn lemma_output() {
    }
}

impl TypeMul<U<16>> for U<7> {
    type Output = U<112>;
    const VALUE: usize = 112;

    proof fn lemma_output() {
    }
}

impl TypeMul<U<17>> for U<7> {
    type Output = U<119>;
    const VALUE: usize = 119;

    proof fn lemma_output() {
    }
}

impl TypeMul<U<18>> for U<7> {
    type Output = U<126>;
    const VALUE: usize = 126;

    proof fn lemma_output() {
    }
}

impl TypeMul<U<19>> for U<7> {
    type Output = U<133>;
    const VALUE: usize = 133;

    proof fn lemma_output() {
    }
}

impl TypeMul<U<20>> for U<7> {
    type Output = U<140>;
    const VALUE: usize = 140;

    proof fn lemma_output() {
    }
}

impl TypeMul<U<21>> for U<7> {
    type Output = U<147>;
    const VALUE: usize = 147;

    proof fn lemma_output() {
    }
}

impl TypeMul<U<22>> for U<7> {
    type Output = U<154>;
    const VALUE: usize = 154;

    proof fn lemma_output() {
    }
}

impl TypeMul<U<23>> for U<7> {
    type Output = U<161>;
    const VALUE: usize = 161;

    proof fn lemma_output() {
    }
}

impl TypeMul<U<24>> for U<7> {
    type Output = U<168>;
    const VALUE: usize = 168;

    proof fn lemma_output() {
    }
}

impl TypeMul<U<25>> for U<7> {
    type Output = U<175>;
    const VALUE: usize = 175;

    proof fn lemma_output() {
    }
}

impl TypeMul<U<26>> for U<7> {
    type Output = U<182>;
    const VALUE: usize = 182;

    proof fn lemma_output() {
    }
}

impl TypeMul<U<27>> for U<7> {
    type Output = U<189>;
    const VALUE: usize = 189;

    proof fn lemma_output() {
    }
}

impl TypeMul<U<28>> for U<7> {
    type Output = U<196>;
    const VALUE: usize = 196;

    proof fn lemma_output() {
    }
}

impl TypeMul<U<29>> for U<7> {
    type Output = U<203>;
    const VALUE: usize = 203;

    proof fn lemma_output() {
    }
}

impl TypeMul<U<30>> for U<7> {
    type Output = U<210>;
    const VALUE: usize = 210;

    proof fn lemma_output() {
    }
}

impl TypeMul<U<31>> for U<7> {
    type Output = U<217>;
    const VALUE: usize = 217;

    proof fn lemma_output() {
    }
}

impl TypeMul<U<0>> for U<8> {
    type Output = U<0>;
    const VALUE: usize = 0;

    proof fn lemma_output() {
    }
}

impl TypeMul<U<1>> for U<8> {
    type Output = U<8>;
    const VALUE: usize = 8;

    proof fn lemma_output() {
    }
}

impl TypeMul<U<2>> for U<8> {
    type Output = U<16>;
    const VALUE: usize = 16;

    proof fn lemma_output() {
    }
}

impl TypeMul<U<3>> for U<8> {
    type Output = U<24>;
    const VALUE: usize = 24;

    proof fn lemma_output() {
    }
}

impl TypeMul<U<4>> for U<8> {
    type Output = U<32>;
    const VALUE: usize = 32;

    proof fn lemma_output() {
    }
}

impl TypeMul<U<5>> for U<8> {
    type Output = U<40>;
    const VALUE: usize = 40;

    proof fn lemma_output() {
    }
}

impl TypeMul<U<6>> for U<8> {
    type Output = U<48>;
    const VALUE: usize = 48;

    proof fn lemma_output() {
    }
}

impl TypeMul<U<7>> for U<8> {
    type Output = U<56>;
    const VALUE: usize = 56;

    proof fn lemma_output() {
    }
}

impl TypeMul<U<8>> for U<8> {
    type Output = U<64>;
    const VALUE: usize = 64;

    proof fn lemma_output() {
    }
}

impl TypeMul<U<9>> for U<8> {
    type Output = U<72>;
    const VALUE: usize = 72;

    proof fn lemma_output() {
    }
}

impl TypeMul<U<10>> for U<8> {
    type Output = U<80>;
    const VALUE: usize = 80;

    proof fn lemma_output() {
    }
}

impl TypeMul<U<11>> for U<8> {
    type Output = U<88>;
    const VALUE: usize = 88;

    proof fn lemma_output() {
    }
}

impl TypeMul<U<12>> for U<8> {
    type Output = U<96>;
    const VALUE: usize = 96;

    proof fn lemma_output() {
    }
}

impl TypeMul<U<13>> for U<8> {
    type Output = U<104>;
    const VALUE: usize = 104;

    proof fn lemma_output() {
    }
}

impl TypeMul<U<14>> for U<8> {
    type Output = U<112>;
    const VALUE: usize = 112;

    proof fn lemma_output() {
    }
}

impl TypeMul<U<15>> for U<8> {
    type Output = U<120>;
    const VALUE: usize = 120;

    proof fn lemma_output() {
    }
}

impl TypeMul<U<16>> for U<8> {
    type Output = U<128>;
    const VALUE: usize = 128;

    proof fn lemma_output() {
    }
}

impl TypeMul<U<17>> for U<8> {
    type Output = U<136>;
    const VALUE: usize = 136;

    proof fn lemma_output() {
    }
}

impl TypeMul<U<18>> for U<8> {
    type Output = U<144>;
    const VALUE: usize = 144;

    proof fn lemma_output() {
    }
}

impl TypeMul<U<19>> for U<8> {
    type Output = U<152>;
    const VALUE: usize = 152;

    proof fn lemma_output() {
    }
}

impl TypeMul<U<20>> for U<8> {
    type Output = U<160>;
    const VALUE: usize = 160;

    proof fn lemma_output() {
    }
}

impl TypeMul<U<21>> for U<8> {
    type Output = U<168>;
    const VALUE: usize = 168;

    proof fn lemma_output() {
    }
}

impl TypeMul<U<22>> for U<8> {
    type Output = U<176>;
    const VALUE: usize = 176;

    proof fn lemma_output() {
    }
}

impl TypeMul<U<23>> for U<8> {
    type Output = U<184>;
    const VALUE: usize = 184;

    proof fn lemma_output() {
    }
}

impl TypeMul<U<24>> for U<8> {
    type Output = U<192>;
    const VALUE: usize = 192;

    proof fn lemma_output() {
    }
}

impl TypeMul<U<25>> for U<8> {
    type Output = U<200>;
    const VALUE: usize = 200;

    proof fn lemma_output() {
    }
}

impl TypeMul<U<26>> for U<8> {
    type Output = U<208>;
    const VALUE: usize = 208;

    proof fn lemma_output() {
    }
}

impl TypeMul<U<27>> for U<8> {
    type Output = U<216>;
    const VALUE: usize = 216;

    proof fn lemma_output() {
    }
}

impl TypeMul<U<28>> for U<8> {
    type Output = U<224>;
    const VALUE: usize = 224;

    proof fn lemma_output() {
    }
}

impl TypeMul<U<29>> for U<8> {
    type Output = U<232>;
    const VALUE: usize = 232;

    proof fn lemma_output() {
    }
}

impl TypeMul<U<30>> for U<8> {
    type Output = U<240>;
    const VALUE: usize = 240;

    proof fn lemma_output() {
    }
}

impl TypeMul<U<31>> for U<8> {
    type Output = U<248>;
    const VALUE: usize = 248;

    proof fn lemma_output() {
    }
}

impl TypeMul<U<0>> for U<9> {
    type Output = U<0>;
    const VALUE: usize = 0;

    proof fn lemma_output() {
    }
}

impl TypeMul<U<1>> for U<9> {
    type Output = U<9>;
    const VALUE: usize = 9;

    proof fn lemma_output() {
    }
}

impl TypeMul<U<2>> for U<9> {
    type Output = U<18>;
    const VALUE: usize = 18;

    proof fn lemma_output() {
    }
}

impl TypeMul<U<3>> for U<9> {
    type Output = U<27>;
    const VALUE: usize = 27;

    proof fn lemma_output() {
    }
}

impl TypeMul<U<4>> for U<9> {
    type Output = U<36>;
    const VALUE: usize = 36;

    proof fn lemma_output() {
    }
}

impl TypeMul<U<5>> for U<9> {
    type Output = U<45>;
    const VALUE: usize = 45;

    proof fn lemma_output() {
    }
}

impl TypeMul<U<6>> for U<9> {
    type Output = U<54>;
    const VALUE: usize = 54;

    proof fn lemma_output() {
    }
}

impl TypeMul<U<7>> for U<9> {
    type Output = U<63>;
    const VALUE: usize = 63;

    proof fn lemma_output() {
    }
}

impl TypeMul<U<8>> for U<9> {
    type Output = U<72>;
    const VALUE: usize = 72;

    proof fn lemma_output() {
    }
}

impl TypeMul<U<9>> for U<9> {
    type Output = U<81>;
    const VALUE: usize = 81;

    proof fn lemma_output() {
    }
}

impl TypeMul<U<10>> for U<9> {
    type Output = U<90>;
    const VALUE: usize = 90;

    proof fn lemma_output() {
    }
}

impl TypeMul<U<11>> for U<9> {
    type Output = U<99>;
    const VALUE: usize = 99;

    proof fn lemma_output() {
    }
}

impl TypeMul<U<12>> for U<9> {
    type Output = U<108>;
    const VALUE: usize = 108;

    proof fn lemma_output() {
    }
}

impl TypeMul<U<13>> for U<9> {
    type Output = U<117>;
    const VALUE: usize = 117;

    proof fn lemma_output() {
    }
}

impl TypeMul<U<14>> for U<9> {
    type Output = U<126>;
    const VALUE: usize = 126;

    proof fn lemma_output() {
    }
}

impl TypeMul<U<15>> for U<9> {
    type Output = U<135>;
    const VALUE: usize = 135;

    proof fn lemma_output() {
    }
}

impl TypeMul<U<16>> for U<9> {
    type Output = U<144>;
    const VALUE: usize = 144;

    proof fn lemma_output() {
    }
}

impl TypeMul<U<17>> for U<9> {
    type Output = U<153>;
    const VALUE: usize = 153;

    proof fn lemma_output() {
    }
}

impl TypeMul<U<18>> for U<9> {
    type Output = U<162>;
    const VALUE: usize = 162;

    proof fn lemma_output() {
    }
}

impl TypeMul<U<19>> for U<9> {
    type Output = U<171>;
    const VALUE: usize = 171;

    proof fn lemma_output() {
    }
}

impl TypeMul<U<20>> for U<9> {
    type Output = U<180>;
    const VALUE: usize = 180;

    proof fn lemma_output() {
    }
}

impl TypeMul<U<21>> for U<9> {
    type Output = U<189>;
    const VALUE: usize = 189;

    proof fn lemma_output() {
    }
}

impl TypeMul<U<22>> for U<9> {
    type Output = U<198>;
    const VALUE: usize = 198;

    proof fn lemma_output() {
    }
}

impl TypeMul<U<23>> for U<9> {
    type Output = U<207>;
    const VALUE: usize = 207;

    proof fn lemma_output() {
    }
}

impl TypeMul<U<24>> for U<9> {
    type Output = U<216>;
    const VALUE: usize = 216;

    proof fn lemma_output() {
    }
}

impl TypeMul<U<25>> for U<9> {
    type Output = U<225>;
    const VALUE: usize = 225;

    proof fn lemma_output() {
    }
}

impl TypeMul<U<26>> for U<9> {
    type Output = U<234>;
    const VALUE: usize = 234;

    proof fn lemma_output() {
    }
}

impl TypeMul<U<27>> for U<9> {
    type Output = U<243>;
    const VALUE: usize = 243;

    proof fn lemma_output() {
    }
}

impl TypeMul<U<28>> for U<9> {
    type Output = U<252>;
    const VALUE: usize = 252;

    proof fn lemma_output() {
    }
}

impl TypeMul<U<29>> for U<9> {
    type Output = U<261>;
    const VALUE: usize = 261;

    proof fn lemma_output() {
    }
}

impl TypeMul<U<30>> for U<9> {
    type Output = U<270>;
    const VALUE: usize = 270;

    proof fn lemma_output() {
    }
}

impl TypeMul<U<31>> for U<9> {
    type Output = U<279>;
    const VALUE: usize = 279;

    proof fn lemma_output() {
    }
}

impl TypeMul<U<0>> for U<10> {
    type Output = U<0>;
    const VALUE: usize = 0;

    proof fn lemma_output() {
    }
}

impl TypeMul<U<1>> for U<10> {
    type Output = U<10>;
    const VALUE: usize = 10;

    proof fn lemma_output() {
    }
}

impl TypeMul<U<2>> for U<10> {
    type Output = U<20>;
    const VALUE: usize = 20;

    proof fn lemma_output() {
    }
}

impl TypeMul<U<3>> for U<10> {
    type Output = U<30>;
    const VALUE: usize = 30;

    proof fn lemma_output() {
    }
}

impl TypeMul<U<4>> for U<10> {
    type Output = U<40>;
    const VALUE: usize = 40;

    proof fn lemma_output() {
    }
}

impl TypeMul<U<5>> for U<10> {
    type Output = U<50>;
    const VALUE: usize = 50;

    proof fn lemma_output() {
    }
}

impl TypeMul<U<6>> for U<10> {
    type Output = U<60>;
    const VALUE: usize = 60;

    proof fn lemma_output() {
    }
}

impl TypeMul<U<7>> for U<10> {
    type Output = U<70>;
    const VALUE: usize = 70;

    proof fn lemma_output() {
    }
}

impl TypeMul<U<8>> for U<10> {
    type Output = U<80>;
    const VALUE: usize = 80;

    proof fn lemma_output() {
    }
}

impl TypeMul<U<9>> for U<10> {
    type Output = U<90>;
    const VALUE: usize = 90;

    proof fn lemma_output() {
    }
}

impl TypeMul<U<10>> for U<10> {
    type Output = U<100>;
    const VALUE: usize = 100;

    proof fn lemma_output() {
    }
}

impl TypeMul<U<11>> for U<10> {
    type Output = U<110>;
    const VALUE: usize = 110;

    proof fn lemma_output() {
    }
}

impl TypeMul<U<12>> for U<10> {
    type Output = U<120>;
    const VALUE: usize = 120;

    proof fn lemma_output() {
    }
}

impl TypeMul<U<13>> for U<10> {
    type Output = U<130>;
    const VALUE: usize = 130;

    proof fn lemma_output() {
    }
}

impl TypeMul<U<14>> for U<10> {
    type Output = U<140>;
    const VALUE: usize = 140;

    proof fn lemma_output() {
    }
}

impl TypeMul<U<15>> for U<10> {
    type Output = U<150>;
    const VALUE: usize = 150;

    proof fn lemma_output() {
    }
}

impl TypeMul<U<16>> for U<10> {
    type Output = U<160>;
    const VALUE: usize = 160;

    proof fn lemma_output() {
    }
}

impl TypeMul<U<17>> for U<10> {
    type Output = U<170>;
    const VALUE: usize = 170;

    proof fn lemma_output() {
    }
}

impl TypeMul<U<18>> for U<10> {
    type Output = U<180>;
    const VALUE: usize = 180;

    proof fn lemma_output() {
    }
}

impl TypeMul<U<19>> for U<10> {
    type Output = U<190>;
    const VALUE: usize = 190;

    proof fn lemma_output() {
    }
}

impl TypeMul<U<20>> for U<10> {
    type Output = U<200>;
    const VALUE: usize = 200;

    proof fn lemma_output() {
    }
}

impl TypeMul<U<21>> for U<10> {
    type Output = U<210>;
    const VALUE: usize = 210;

    proof fn lemma_output() {
    }
}

impl TypeMul<U<22>> for U<10> {
    type Output = U<220>;
    const VALUE: usize = 220;

    proof fn lemma_output() {
    }
}

impl TypeMul<U<23>> for U<10> {
    type Output = U<230>;
    const VALUE: usize = 230;

    proof fn lemma_output() {
    }
}

impl TypeMul<U<24>> for U<10> {
    type Output = U<240>;
    const VALUE: usize = 240;

    proof fn lemma_output() {
    }
}

impl TypeMul<U<25>> for U<10> {
    type Output = U<250>;
    const VALUE: usize = 250;

    proof fn lemma_output() {
    }
}

impl TypeMul<U<26>> for U<10> {
    type Output = U<260>;
    const VALUE: usize = 260;

    proof fn lemma_output() {
    }
}

impl TypeMul<U<27>> for U<10> {
    type Output = U<270>;
    const VALUE: usize = 270;

    proof fn lemma_output() {
    }
}

impl TypeMul<U<28>> for U<10> {
    type Output = U<280>;
    const VALUE: usize = 280;

    proof fn lemma_output() {
    }
}

impl TypeMul<U<29>> for U<10> {
    type Output = U<290>;
    const VALUE: usize = 290;

    proof fn lemma_output() {
    }
}

impl TypeMul<U<30>> for U<10> {
    type Output = U<300>;
    const VALUE: usize = 300;

    proof fn lemma_output() {
    }
}

impl TypeMul<U<31>> for U<10> {
    type Output = U<310>;
    const VALUE: usize = 310;

    proof fn lemma_output() {
    }
}

impl TypeMul<U<0>> for U<11> {
    type Output = U<0>;
    const VALUE: usize = 0;

    proof fn lemma_output() {
    }
}

impl TypeMul<U<1>> for U<11> {
    type Output = U<11>;
    const VALUE: usize = 11;

    proof fn lemma_output() {
    }
}

impl TypeMul<U<2>> for U<11> {
    type Output = U<22>;
    const VALUE: usize = 22;

    proof fn lemma_output() {
    }
}

impl TypeMul<U<3>> for U<11> {
    type Output = U<33>;
    const VALUE: usize = 33;

    proof fn lemma_output() {
    }
}

impl TypeMul<U<4>> for U<11> {
    type Output = U<44>;
    const VALUE: usize = 44;

    proof fn lemma_output() {
    }
}

impl TypeMul<U<5>> for U<11> {
    type Output = U<55>;
    const VALUE: usize = 55;

    proof fn lemma_output() {
    }
}

impl TypeMul<U<6>> for U<11> {
    type Output = U<66>;
    const VALUE: usize = 66;

    proof fn lemma_output() {
    }
}

impl TypeMul<U<7>> for U<11> {
    type Output = U<77>;
    const VALUE: usize = 77;

    proof fn lemma_output() {
    }
}

impl TypeMul<U<8>> for U<11> {
    type Output = U<88>;
    const VALUE: usize = 88;

    proof fn lemma_output() {
    }
}

impl TypeMul<U<9>> for U<11> {
    type Output = U<99>;
    const VALUE: usize = 99;

    proof fn lemma_output() {
    }
}

impl TypeMul<U<10>> for U<11> {
    type Output = U<110>;
    const VALUE: usize = 110;

    proof fn lemma_output() {
    }
}

impl TypeMul<U<11>> for U<11> {
    type Output = U<121>;
    const VALUE: usize = 121;

    proof fn lemma_output() {
    }
}

impl TypeMul<U<12>> for U<11> {
    type Output = U<132>;
    const VALUE: usize = 132;

    proof fn lemma_output() {
    }
}

impl TypeMul<U<13>> for U<11> {
    type Output = U<143>;
    const VALUE: usize = 143;

    proof fn lemma_output() {
    }
}

impl TypeMul<U<14>> for U<11> {
    type Output = U<154>;
    const VALUE: usize = 154;

    proof fn lemma_output() {
    }
}

impl TypeMul<U<15>> for U<11> {
    type Output = U<165>;
    const VALUE: usize = 165;

    proof fn lemma_output() {
    }
}

impl TypeMul<U<16>> for U<11> {
    type Output = U<176>;
    const VALUE: usize = 176;

    proof fn lemma_output() {
    }
}

impl TypeMul<U<17>> for U<11> {
    type Output = U<187>;
    const VALUE: usize = 187;

    proof fn lemma_output() {
    }
}

impl TypeMul<U<18>> for U<11> {
    type Output = U<198>;
    const VALUE: usize = 198;

    proof fn lemma_output() {
    }
}

impl TypeMul<U<19>> for U<11> {
    type Output = U<209>;
    const VALUE: usize = 209;

    proof fn lemma_output() {
    }
}

impl TypeMul<U<20>> for U<11> {
    type Output = U<220>;
    const VALUE: usize = 220;

    proof fn lemma_output() {
    }
}

impl TypeMul<U<21>> for U<11> {
    type Output = U<231>;
    const VALUE: usize = 231;

    proof fn lemma_output() {
    }
}

impl TypeMul<U<22>> for U<11> {
    type Output = U<242>;
    const VALUE: usize = 242;

    proof fn lemma_output() {
    }
}

impl TypeMul<U<23>> for U<11> {
    type Output = U<253>;
    const VALUE: usize = 253;

    proof fn lemma_output() {
    }
}

impl TypeMul<U<24>> for U<11> {
    type Output = U<264>;
    const VALUE: usize = 264;

    proof fn lemma_output() {
    }
}

impl TypeMul<U<25>> for U<11> {
    type Output = U<275>;
    const VALUE: usize = 275;

    proof fn lemma_output() {
    }
}

impl TypeMul<U<26>> for U<11> {
    type Output = U<286>;
    const VALUE: usize = 286;

    proof fn lemma_output() {
    }
}

impl TypeMul<U<27>> for U<11> {
    type Output = U<297>;
    const VALUE: usize = 297;

    proof fn lemma_output() {
    }
}

impl TypeMul<U<28>> for U<11> {
    type Output = U<308>;
    const VALUE: usize = 308;

    proof fn lemma_output() {
    }
}

impl TypeMul<U<29>> for U<11> {
    type Output = U<319>;
    const VALUE: usize = 319;

    proof fn lemma_output() {
    }
}

impl TypeMul<U<30>> for U<11> {
    type Output = U<330>;
    const VALUE: usize = 330;

    proof fn lemma_output() {
    }
}

impl TypeMul<U<31>> for U<11> {
    type Output = U<341>;
    const VALUE: usize = 341;

    proof fn lemma_output() {
    }
}

impl TypeMul<U<0>> for U<12> {
    type Output = U<0>;
    const VALUE: usize = 0;

    proof fn lemma_output() {
    }
}

impl TypeMul<U<1>> for U<12> {
    type Output = U<12>;
    const VALUE: usize = 12;

    proof fn lemma_output() {
    }
}

impl TypeMul<U<2>> for U<12> {
    type Output = U<24>;
    const VALUE: usize = 24;

    proof fn lemma_output() {
    }
}

impl TypeMul<U<3>> for U<12> {
    type Output = U<36>;
    const VALUE: usize = 36;

    proof fn lemma_output() {
    }
}

impl TypeMul<U<4>> for U<12> {
    type Output = U<48>;
    const VALUE: usize = 48;

    proof fn lemma_output() {
    }
}

impl TypeMul<U<5>> for U<12> {
    type Output = U<60>;
    const VALUE: usize = 60;

    proof fn lemma_output() {
    }
}

impl TypeMul<U<6>> for U<12> {
    type Output = U<72>;
    const VALUE: usize = 72;

    proof fn lemma_output() {
    }
}

impl TypeMul<U<7>> for U<12> {
    type Output = U<84>;
    const VALUE: usize = 84;

    proof fn lemma_output() {
    }
}

impl TypeMul<U<8>> for U<12> {
    type Output = U<96>;
    const VALUE: usize = 96;

    proof fn lemma_output() {
    }
}

impl TypeMul<U<9>> for U<12> {
    type Output = U<108>;
    const VALUE: usize = 108;

    proof fn lemma_output() {
    }
}

impl TypeMul<U<10>> for U<12> {
    type Output = U<120>;
    const VALUE: usize = 120;

    proof fn lemma_output() {
    }
}

impl TypeMul<U<11>> for U<12> {
    type Output = U<132>;
    const VALUE: usize = 132;

    proof fn lemma_output() {
    }
}

impl TypeMul<U<12>> for U<12> {
    type Output = U<144>;
    const VALUE: usize = 144;

    proof fn lemma_output() {
    }
}

impl TypeMul<U<13>> for U<12> {
    type Output = U<156>;
    const VALUE: usize = 156;

    proof fn lemma_output() {
    }
}

impl TypeMul<U<14>> for U<12> {
    type Output = U<168>;
    const VALUE: usize = 168;

    proof fn lemma_output() {
    }
}

impl TypeMul<U<15>> for U<12> {
    type Output = U<180>;
    const VALUE: usize = 180;

    proof fn lemma_output() {
    }
}

impl TypeMul<U<16>> for U<12> {
    type Output = U<192>;
    const VALUE: usize = 192;

    proof fn lemma_output() {
    }
}

impl TypeMul<U<17>> for U<12> {
    type Output = U<204>;
    const VALUE: usize = 204;

    proof fn lemma_output() {
    }
}

impl TypeMul<U<18>> for U<12> {
    type Output = U<216>;
    const VALUE: usize = 216;

    proof fn lemma_output() {
    }
}

impl TypeMul<U<19>> for U<12> {
    type Output = U<228>;
    const VALUE: usize = 228;

    proof fn lemma_output() {
    }
}

impl TypeMul<U<20>> for U<12> {
    type Output = U<240>;
    const VALUE: usize = 240;

    proof fn lemma_output() {
    }
}

impl TypeMul<U<21>> for U<12> {
    type Output = U<252>;
    const VALUE: usize = 252;

    proof fn lemma_output() {
    }
}

impl TypeMul<U<22>> for U<12> {
    type Output = U<264>;
    const VALUE: usize = 264;

    proof fn lemma_output() {
    }
}

impl TypeMul<U<23>> for U<12> {
    type Output = U<276>;
    const VALUE: usize = 276;

    proof fn lemma_output() {
    }
}

impl TypeMul<U<24>> for U<12> {
    type Output = U<288>;
    const VALUE: usize = 288;

    proof fn lemma_output() {
    }
}

impl TypeMul<U<25>> for U<12> {
    type Output = U<300>;
    const VALUE: usize = 300;

    proof fn lemma_output() {
    }
}

impl TypeMul<U<26>> for U<12> {
    type Output = U<312>;
    const VALUE: usize = 312;

    proof fn lemma_output() {
    }
}

impl TypeMul<U<27>> for U<12> {
    type Output = U<324>;
    const VALUE: usize = 324;

    proof fn lemma_output() {
    }
}

impl TypeMul<U<28>> for U<12> {
    type Output = U<336>;
    const VALUE: usize = 336;

    proof fn lemma_output() {
    }
}

impl TypeMul<U<29>> for U<12> {
    type Output = U<348>;
    const VALUE: usize = 348;

    proof fn lemma_output() {
    }
}

impl TypeMul<U<30>> for U<12> {
    type Output = U<360>;
    const VALUE: usize = 360;

    proof fn lemma_output() {
    }
}

impl TypeMul<U<31>> for U<12> {
    type Output = U<372>;
    const VALUE: usize = 372;

    proof fn lemma_output() {
    }
}

impl TypeMul<U<0>> for U<13> {
    type Output = U<0>;
    const VALUE: usize = 0;

    proof fn lemma_output() {
    }
}

impl TypeMul<U<1>> for U<13> {
    type Output = U<13>;
    const VALUE: usize = 13;

    proof fn lemma_output() {
    }
}

impl TypeMul<U<2>> for U<13> {
    type Output = U<26>;
    const VALUE: usize = 26;

    proof fn lemma_output() {
    }
}

impl TypeMul<U<3>> for U<13> {
    type Output = U<39>;
    const VALUE: usize = 39;

    proof fn lemma_output() {
    }
}

impl TypeMul<U<4>> for U<13> {
    type Output = U<52>;
    const VALUE: usize = 52;

    proof fn lemma_output() {
    }
}

impl TypeMul<U<5>> for U<13> {
    type Output = U<65>;
    const VALUE: usize = 65;

    proof fn lemma_output() {
    }
}

impl TypeMul<U<6>> for U<13> {
    type Output = U<78>;
    const VALUE: usize = 78;

    proof fn lemma_output() {
    }
}

impl TypeMul<U<7>> for U<13> {
    type Output = U<91>;
    const VALUE: usize = 91;

    proof fn lemma_output() {
    }
}

impl TypeMul<U<8>> for U<13> {
    type Output = U<104>;
    const VALUE: usize = 104;

    proof fn lemma_output() {
    }
}

impl TypeMul<U<9>> for U<13> {
    type Output = U<117>;
    const VALUE: usize = 117;

    proof fn lemma_output() {
    }
}

impl TypeMul<U<10>> for U<13> {
    type Output = U<130>;
    const VALUE: usize = 130;

    proof fn lemma_output() {
    }
}

impl TypeMul<U<11>> for U<13> {
    type Output = U<143>;
    const VALUE: usize = 143;

    proof fn lemma_output() {
    }
}

impl TypeMul<U<12>> for U<13> {
    type Output = U<156>;
    const VALUE: usize = 156;

    proof fn lemma_output() {
    }
}

impl TypeMul<U<13>> for U<13> {
    type Output = U<169>;
    const VALUE: usize = 169;

    proof fn lemma_output() {
    }
}

impl TypeMul<U<14>> for U<13> {
    type Output = U<182>;
    const VALUE: usize = 182;

    proof fn lemma_output() {
    }
}

impl TypeMul<U<15>> for U<13> {
    type Output = U<195>;
    const VALUE: usize = 195;

    proof fn lemma_output() {
    }
}

impl TypeMul<U<16>> for U<13> {
    type Output = U<208>;
    const VALUE: usize = 208;

    proof fn lemma_output() {
    }
}

impl TypeMul<U<17>> for U<13> {
    type Output = U<221>;
    const VALUE: usize = 221;

    proof fn lemma_output() {
    }
}

impl TypeMul<U<18>> for U<13> {
    type Output = U<234>;
    const VALUE: usize = 234;

    proof fn lemma_output() {
    }
}

impl TypeMul<U<19>> for U<13> {
    type Output = U<247>;
    const VALUE: usize = 247;

    proof fn lemma_output() {
    }
}

impl TypeMul<U<20>> for U<13> {
    type Output = U<260>;
    const VALUE: usize = 260;

    proof fn lemma_output() {
    }
}

impl TypeMul<U<21>> for U<13> {
    type Output = U<273>;
    const VALUE: usize = 273;

    proof fn lemma_output() {
    }
}

impl TypeMul<U<22>> for U<13> {
    type Output = U<286>;
    const VALUE: usize = 286;

    proof fn lemma_output() {
    }
}

impl TypeMul<U<23>> for U<13> {
    type Output = U<299>;
    const VALUE: usize = 299;

    proof fn lemma_output() {
    }
}

impl TypeMul<U<24>> for U<13> {
    type Output = U<312>;
    const VALUE: usize = 312;

    proof fn lemma_output() {
    }
}

impl TypeMul<U<25>> for U<13> {
    type Output = U<325>;
    const VALUE: usize = 325;

    proof fn lemma_output() {
    }
}

impl TypeMul<U<26>> for U<13> {
    type Output = U<338>;
    const VALUE: usize = 338;

    proof fn lemma_output() {
    }
}

impl TypeMul<U<27>> for U<13> {
    type Output = U<351>;
    const VALUE: usize = 351;

    proof fn lemma_output() {
    }
}

impl TypeMul<U<28>> for U<13> {
    type Output = U<364>;
    const VALUE: usize = 364;

    proof fn lemma_output() {
    }
}

impl TypeMul<U<29>> for U<13> {
    type Output = U<377>;
    const VALUE: usize = 377;

    proof fn lemma_output() {
    }
}

impl TypeMul<U<30>> for U<13> {
    type Output = U<390>;
    const VALUE: usize = 390;

    proof fn lemma_output() {
    }
}

impl TypeMul<U<31>> for U<13> {
    type Output = U<403>;
    const VALUE: usize = 403;

    proof fn lemma_output() {
    }
}

impl TypeMul<U<0>> for U<14> {
    type Output = U<0>;
    const VALUE: usize = 0;

    proof fn lemma_output() {
    }
}

impl TypeMul<U<1>> for U<14> {
    type Output = U<14>;
    const VALUE: usize = 14;

    proof fn lemma_output() {
    }
}

impl TypeMul<U<2>> for U<14> {
    type Output = U<28>;
    const VALUE: usize = 28;

    proof fn lemma_output() {
    }
}

impl TypeMul<U<3>> for U<14> {
    type Output = U<42>;
    const VALUE: usize = 42;

    proof fn lemma_output() {
    }
}

impl TypeMul<U<4>> for U<14> {
    type Output = U<56>;
    const VALUE: usize = 56;

    proof fn lemma_output() {
    }
}

impl TypeMul<U<5>> for U<14> {
    type Output = U<70>;
    const VALUE: usize = 70;

    proof fn lemma_output() {
    }
}

impl TypeMul<U<6>> for U<14> {
    type Output = U<84>;
    const VALUE: usize = 84;

    proof fn lemma_output() {
    }
}

impl TypeMul<U<7>> for U<14> {
    type Output = U<98>;
    const VALUE: usize = 98;

    proof fn lemma_output() {
    }
}

impl TypeMul<U<8>> for U<14> {
    type Output = U<112>;
    const VALUE: usize = 112;

    proof fn lemma_output() {
    }
}

impl TypeMul<U<9>> for U<14> {
    type Output = U<126>;
    const VALUE: usize = 126;

    proof fn lemma_output() {
    }
}

impl TypeMul<U<10>> for U<14> {
    type Output = U<140>;
    const VALUE: usize = 140;

    proof fn lemma_output() {
    }
}

impl TypeMul<U<11>> for U<14> {
    type Output = U<154>;
    const VALUE: usize = 154;

    proof fn lemma_output() {
    }
}

impl TypeMul<U<12>> for U<14> {
    type Output = U<168>;
    const VALUE: usize = 168;

    proof fn lemma_output() {
    }
}

impl TypeMul<U<13>> for U<14> {
    type Output = U<182>;
    const VALUE: usize = 182;

    proof fn lemma_output() {
    }
}

impl TypeMul<U<14>> for U<14> {
    type Output = U<196>;
    const VALUE: usize = 196;

    proof fn lemma_output() {
    }
}

impl TypeMul<U<15>> for U<14> {
    type Output = U<210>;
    const VALUE: usize = 210;

    proof fn lemma_output() {
    }
}

impl TypeMul<U<16>> for U<14> {
    type Output = U<224>;
    const VALUE: usize = 224;

    proof fn lemma_output() {
    }
}

impl TypeMul<U<17>> for U<14> {
    type Output = U<238>;
    const VALUE: usize = 238;

    proof fn lemma_output() {
    }
}

impl TypeMul<U<18>> for U<14> {
    type Output = U<252>;
    const VALUE: usize = 252;

    proof fn lemma_output() {
    }
}

impl TypeMul<U<19>> for U<14> {
    type Output = U<266>;
    const VALUE: usize = 266;

    proof fn lemma_output() {
    }
}

impl TypeMul<U<20>> for U<14> {
    type Output = U<280>;
    const VALUE: usize = 280;

    proof fn lemma_output() {
    }
}

impl TypeMul<U<21>> for U<14> {
    type Output = U<294>;
    const VALUE: usize = 294;

    proof fn lemma_output() {
    }
}

impl TypeMul<U<22>> for U<14> {
    type Output = U<308>;
    const VALUE: usize = 308;

    proof fn lemma_output() {
    }
}

impl TypeMul<U<23>> for U<14> {
    type Output = U<322>;
    const VALUE: usize = 322;

    proof fn lemma_output() {
    }
}

impl TypeMul<U<24>> for U<14> {
    type Output = U<336>;
    const VALUE: usize = 336;

    proof fn lemma_output() {
    }
}

impl TypeMul<U<25>> for U<14> {
    type Output = U<350>;
    const VALUE: usize = 350;

    proof fn lemma_output() {
    }
}

impl TypeMul<U<26>> for U<14> {
    type Output = U<364>;
    const VALUE: usize = 364;

    proof fn lemma_output() {
    }
}

impl TypeMul<U<27>> for U<14> {
    type Output = U<378>;
    const VALUE: usize = 378;

    proof fn lemma_output() {
    }
}

impl TypeMul<U<28>> for U<14> {
    type Output = U<392>;
    const VALUE: usize = 392;

    proof fn lemma_output() {
    }
}

impl TypeMul<U<29>> for U<14> {
    type Output = U<406>;
    const VALUE: usize = 406;

    proof fn lemma_output() {
    }
}

impl TypeMul<U<30>> for U<14> {
    type Output = U<420>;
    const VALUE: usize = 420;

    proof fn lemma_output() {
    }
}

impl TypeMul<U<31>> for U<14> {
    type Output = U<434>;
    const VALUE: usize = 434;

    proof fn lemma_output() {
    }
}

impl TypeMul<U<0>> for U<15> {
    type Output = U<0>;
    const VALUE: usize = 0;

    proof fn lemma_output() {
    }
}

impl TypeMul<U<1>> for U<15> {
    type Output = U<15>;
    const VALUE: usize = 15;

    proof fn lemma_output() {
    }
}

impl TypeMul<U<2>> for U<15> {
    type Output = U<30>;
    const VALUE: usize = 30;

    proof fn lemma_output() {
    }
}

impl TypeMul<U<3>> for U<15> {
    type Output = U<45>;
    const VALUE: usize = 45;

    proof fn lemma_output() {
    }
}

impl TypeMul<U<4>> for U<15> {
    type Output = U<60>;
    const VALUE: usize = 60;

    proof fn lemma_output() {
    }
}

impl TypeMul<U<5>> for U<15> {
    type Output = U<75>;
    const VALUE: usize = 75;

    proof fn lemma_output() {
    }
}

impl TypeMul<U<6>> for U<15> {
    type Output = U<90>;
    const VALUE: usize = 90;

    proof fn lemma_output() {
    }
}

impl TypeMul<U<7>> for U<15> {
    type Output = U<105>;
    const VALUE: usize = 105;

    proof fn lemma_output() {
    }
}

impl TypeMul<U<8>> for U<15> {
    type Output = U<120>;
    const VALUE: usize = 120;

    proof fn lemma_output() {
    }
}

impl TypeMul<U<9>> for U<15> {
    type Output = U<135>;
    const VALUE: usize = 135;

    proof fn lemma_output() {
    }
}

impl TypeMul<U<10>> for U<15> {
    type Output = U<150>;
    const VALUE: usize = 150;

    proof fn lemma_output() {
    }
}

impl TypeMul<U<11>> for U<15> {
    type Output = U<165>;
    const VALUE: usize = 165;

    proof fn lemma_output() {
    }
}

impl TypeMul<U<12>> for U<15> {
    type Output = U<180>;
    const VALUE: usize = 180;

    proof fn lemma_output() {
    }
}

impl TypeMul<U<13>> for U<15> {
    type Output = U<195>;
    const VALUE: usize = 195;

    proof fn lemma_output() {
    }
}

impl TypeMul<U<14>> for U<15> {
    type Output = U<210>;
    const VALUE: usize = 210;

    proof fn lemma_output() {
    }
}

impl TypeMul<U<15>> for U<15> {
    type Output = U<225>;
    const VALUE: usize = 225;

    proof fn lemma_output() {
    }
}

impl TypeMul<U<16>> for U<15> {
    type Output = U<240>;
    const VALUE: usize = 240;

    proof fn lemma_output() {
    }
}

impl TypeMul<U<17>> for U<15> {
    type Output = U<255>;
    const VALUE: usize = 255;

    proof fn lemma_output() {
    }
}

impl TypeMul<U<18>> for U<15> {
    type Output = U<270>;
    const VALUE: usize = 270;

    proof fn lemma_output() {
    }
}

impl TypeMul<U<19>> for U<15> {
    type Output = U<285>;
    const VALUE: usize = 285;

    proof fn lemma_output() {
    }
}

impl TypeMul<U<20>> for U<15> {
    type Output = U<300>;
    const VALUE: usize = 300;

    proof fn lemma_output() {
    }
}

impl TypeMul<U<21>> for U<15> {
    type Output = U<315>;
    const VALUE: usize = 315;

    proof fn lemma_output() {
    }
}

impl TypeMul<U<22>> for U<15> {
    type Output = U<330>;
    const VALUE: usize = 330;

    proof fn lemma_output() {
    }
}

impl TypeMul<U<23>> for U<15> {
    type Output = U<345>;
    const VALUE: usize = 345;

    proof fn lemma_output() {
    }
}

impl TypeMul<U<24>> for U<15> {
    type Output = U<360>;
    const VALUE: usize = 360;

    proof fn lemma_output() {
    }
}

impl TypeMul<U<25>> for U<15> {
    type Output = U<375>;
    const VALUE: usize = 375;

    proof fn lemma_output() {
    }
}

impl TypeMul<U<26>> for U<15> {
    type Output = U<390>;
    const VALUE: usize = 390;

    proof fn lemma_output() {
    }
}

impl TypeMul<U<27>> for U<15> {
    type Output = U<405>;
    const VALUE: usize = 405;

    proof fn lemma_output() {
    }
}

impl TypeMul<U<28>> for U<15> {
    type Output = U<420>;
    const VALUE: usize = 420;

    proof fn lemma_output() {
    }
}

impl TypeMul<U<29>> for U<15> {
    type Output = U<435>;
    const VALUE: usize = 435;

    proof fn lemma_output() {
    }
}

impl TypeMul<U<30>> for U<15> {
    type Output = U<450>;
    const VALUE: usize = 450;

    proof fn lemma_output() {
    }
}

impl TypeMul<U<31>> for U<15> {
    type Output = U<465>;
    const VALUE: usize = 465;

    proof fn lemma_output() {
    }
}

impl TypeMul<U<0>> for U<16> {
    type Output = U<0>;
    const VALUE: usize = 0;

    proof fn lemma_output() {
    }
}

impl TypeMul<U<1>> for U<16> {
    type Output = U<16>;
    const VALUE: usize = 16;

    proof fn lemma_output() {
    }
}

impl TypeMul<U<2>> for U<16> {
    type Output = U<32>;
    const VALUE: usize = 32;

    proof fn lemma_output() {
    }
}

impl TypeMul<U<3>> for U<16> {
    type Output = U<48>;
    const VALUE: usize = 48;

    proof fn lemma_output() {
    }
}

impl TypeMul<U<4>> for U<16> {
    type Output = U<64>;
    const VALUE: usize = 64;

    proof fn lemma_output() {
    }
}

impl TypeMul<U<5>> for U<16> {
    type Output = U<80>;
    const VALUE: usize = 80;

    proof fn lemma_output() {
    }
}

impl TypeMul<U<6>> for U<16> {
    type Output = U<96>;
    const VALUE: usize = 96;

    proof fn lemma_output() {
    }
}

impl TypeMul<U<7>> for U<16> {
    type Output = U<112>;
    const VALUE: usize = 112;

    proof fn lemma_output() {
    }
}

impl TypeMul<U<8>> for U<16> {
    type Output = U<128>;
    const VALUE: usize = 128;

    proof fn lemma_output() {
    }
}

impl TypeMul<U<9>> for U<16> {
    type Output = U<144>;
    const VALUE: usize = 144;

    proof fn lemma_output() {
    }
}

impl TypeMul<U<10>> for U<16> {
    type Output = U<160>;
    const VALUE: usize = 160;

    proof fn lemma_output() {
    }
}

impl TypeMul<U<11>> for U<16> {
    type Output = U<176>;
    const VALUE: usize = 176;

    proof fn lemma_output() {
    }
}

impl TypeMul<U<12>> for U<16> {
    type Output = U<192>;
    const VALUE: usize = 192;

    proof fn lemma_output() {
    }
}

impl TypeMul<U<13>> for U<16> {
    type Output = U<208>;
    const VALUE: usize = 208;

    proof fn lemma_output() {
    }
}

impl TypeMul<U<14>> for U<16> {
    type Output = U<224>;
    const VALUE: usize = 224;

    proof fn lemma_output() {
    }
}

impl TypeMul<U<15>> for U<16> {
    type Output = U<240>;
    const VALUE: usize = 240;

    proof fn lemma_output() {
    }
}

impl TypeMul<U<16>> for U<16> {
    type Output = U<256>;
    const VALUE: usize = 256;

    proof fn lemma_output() {
    }
}

impl TypeMul<U<17>> for U<16> {
    type Output = U<272>;
    const VALUE: usize = 272;

    proof fn lemma_output() {
    }
}

impl TypeMul<U<18>> for U<16> {
    type Output = U<288>;
    const VALUE: usize = 288;

    proof fn lemma_output() {
    }
}

impl TypeMul<U<19>> for U<16> {
    type Output = U<304>;
    const VALUE: usize = 304;

    proof fn lemma_output() {
    }
}

impl TypeMul<U<20>> for U<16> {
    type Output = U<320>;
    const VALUE: usize = 320;

    proof fn lemma_output() {
    }
}

impl TypeMul<U<21>> for U<16> {
    type Output = U<336>;
    const VALUE: usize = 336;

    proof fn lemma_output() {
    }
}

impl TypeMul<U<22>> for U<16> {
    type Output = U<352>;
    const VALUE: usize = 352;

    proof fn lemma_output() {
    }
}

impl TypeMul<U<23>> for U<16> {
    type Output = U<368>;
    const VALUE: usize = 368;

    proof fn lemma_output() {
    }
}

impl TypeMul<U<24>> for U<16> {
    type Output = U<384>;
    const VALUE: usize = 384;

    proof fn lemma_output() {
    }
}

impl TypeMul<U<25>> for U<16> {
    type Output = U<400>;
    const VALUE: usize = 400;

    proof fn lemma_output() {
    }
}

impl TypeMul<U<26>> for U<16> {
    type Output = U<416>;
    const VALUE: usize = 416;

    proof fn lemma_output() {
    }
}

impl TypeMul<U<27>> for U<16> {
    type Output = U<432>;
    const VALUE: usize = 432;

    proof fn lemma_output() {
    }
}

impl TypeMul<U<28>> for U<16> {
    type Output = U<448>;
    const VALUE: usize = 448;

    proof fn lemma_output() {
    }
}

impl TypeMul<U<29>> for U<16> {
    type Output = U<464>;
    const VALUE: usize = 464;

    proof fn lemma_output() {
    }
}

impl TypeMul<U<30>> for U<16> {
    type Output = U<480>;
    const VALUE: usize = 480;

    proof fn lemma_output() {
    }
}

impl TypeMul<U<31>> for U<16> {
    type Output = U<496>;
    const VALUE: usize = 496;

    proof fn lemma_output() {
    }
}

impl TypeMul<U<0>> for U<17> {
    type Output = U<0>;
    const VALUE: usize = 0;

    proof fn lemma_output() {
    }
}

impl TypeMul<U<1>> for U<17> {
    type Output = U<17>;
    const VALUE: usize = 17;

    proof fn lemma_output() {
    }
}

impl TypeMul<U<2>> for U<17> {
    type Output = U<34>;
    const VALUE: usize = 34;

    proof fn lemma_output() {
    }
}

impl TypeMul<U<3>> for U<17> {
    type Output = U<51>;
    const VALUE: usize = 51;

    proof fn lemma_output() {
    }
}

impl TypeMul<U<4>> for U<17> {
    type Output = U<68>;
    const VALUE: usize = 68;

    proof fn lemma_output() {
    }
}

impl TypeMul<U<5>> for U<17> {
    type Output = U<85>;
    const VALUE: usize = 85;

    proof fn lemma_output() {
    }
}

impl TypeMul<U<6>> for U<17> {
    type Output = U<102>;
    const VALUE: usize = 102;

    proof fn lemma_output() {
    }
}

impl TypeMul<U<7>> for U<17> {
    type Output = U<119>;
    const VALUE: usize = 119;

    proof fn lemma_output() {
    }
}

impl TypeMul<U<8>> for U<17> {
    type Output = U<136>;
    const VALUE: usize = 136;

    proof fn lemma_output() {
    }
}

impl TypeMul<U<9>> for U<17> {
    type Output = U<153>;
    const VALUE: usize = 153;

    proof fn lemma_output() {
    }
}

impl TypeMul<U<10>> for U<17> {
    type Output = U<170>;
    const VALUE: usize = 170;

    proof fn lemma_output() {
    }
}

impl TypeMul<U<11>> for U<17> {
    type Output = U<187>;
    const VALUE: usize = 187;

    proof fn lemma_output() {
    }
}

impl TypeMul<U<12>> for U<17> {
    type Output = U<204>;
    const VALUE: usize = 204;

    proof fn lemma_output() {
    }
}

impl TypeMul<U<13>> for U<17> {
    type Output = U<221>;
    const VALUE: usize = 221;

    proof fn lemma_output() {
    }
}

impl TypeMul<U<14>> for U<17> {
    type Output = U<238>;
    const VALUE: usize = 238;

    proof fn lemma_output() {
    }
}

impl TypeMul<U<15>> for U<17> {
    type Output = U<255>;
    const VALUE: usize = 255;

    proof fn lemma_output() {
    }
}

impl TypeMul<U<16>> for U<17> {
    type Output = U<272>;
    const VALUE: usize = 272;

    proof fn lemma_output() {
    }
}

impl TypeMul<U<17>> for U<17> {
    type Output = U<289>;
    const VALUE: usize = 289;

    proof fn lemma_output() {
    }
}

impl TypeMul<U<18>> for U<17> {
    type Output = U<306>;
    const VALUE: usize = 306;

    proof fn lemma_output() {
    }
}

impl TypeMul<U<19>> for U<17> {
    type Output = U<323>;
    const VALUE: usize = 323;

    proof fn lemma_output() {
    }
}

impl TypeMul<U<20>> for U<17> {
    type Output = U<340>;
    const VALUE: usize = 340;

    proof fn lemma_output() {
    }
}

impl TypeMul<U<21>> for U<17> {
    type Output = U<357>;
    const VALUE: usize = 357;

    proof fn lemma_output() {
    }
}

impl TypeMul<U<22>> for U<17> {
    type Output = U<374>;
    const VALUE: usize = 374;

    proof fn lemma_output() {
    }
}

impl TypeMul<U<23>> for U<17> {
    type Output = U<391>;
    const VALUE: usize = 391;

    proof fn lemma_output() {
    }
}

impl TypeMul<U<24>> for U<17> {
    type Output = U<408>;
    const VALUE: usize = 408;

    proof fn lemma_output() {
    }
}

impl TypeMul<U<25>> for U<17> {
    type Output = U<425>;
    const VALUE: usize = 425;

    proof fn lemma_output() {
    }
}

impl TypeMul<U<26>> for U<17> {
    type Output = U<442>;
    const VALUE: usize = 442;

    proof fn lemma_output() {
    }
}

impl TypeMul<U<27>> for U<17> {
    type Output = U<459>;
    const VALUE: usize = 459;

    proof fn lemma_output() {
    }
}

impl TypeMul<U<28>> for U<17> {
    type Output = U<476>;
    const VALUE: usize = 476;

    proof fn lemma_output() {
    }
}

impl TypeMul<U<29>> for U<17> {
    type Output = U<493>;
    const VALUE: usize = 493;

    proof fn lemma_output() {
    }
}

impl TypeMul<U<30>> for U<17> {
    type Output = U<510>;
    const VALUE: usize = 510;

    proof fn lemma_output() {
    }
}

impl TypeMul<U<31>> for U<17> {
    type Output = U<527>;
    const VALUE: usize = 527;

    proof fn lemma_output() {
    }
}

impl TypeMul<U<0>> for U<18> {
    type Output = U<0>;
    const VALUE: usize = 0;

    proof fn lemma_output() {
    }
}

impl TypeMul<U<1>> for U<18> {
    type Output = U<18>;
    const VALUE: usize = 18;

    proof fn lemma_output() {
    }
}

impl TypeMul<U<2>> for U<18> {
    type Output = U<36>;
    const VALUE: usize = 36;

    proof fn lemma_output() {
    }
}

impl TypeMul<U<3>> for U<18> {
    type Output = U<54>;
    const VALUE: usize = 54;

    proof fn lemma_output() {
    }
}

impl TypeMul<U<4>> for U<18> {
    type Output = U<72>;
    const VALUE: usize = 72;

    proof fn lemma_output() {
    }
}

impl TypeMul<U<5>> for U<18> {
    type Output = U<90>;
    const VALUE: usize = 90;

    proof fn lemma_output() {
    }
}

impl TypeMul<U<6>> for U<18> {
    type Output = U<108>;
    const VALUE: usize = 108;

    proof fn lemma_output() {
    }
}

impl TypeMul<U<7>> for U<18> {
    type Output = U<126>;
    const VALUE: usize = 126;

    proof fn lemma_output() {
    }
}

impl TypeMul<U<8>> for U<18> {
    type Output = U<144>;
    const VALUE: usize = 144;

    proof fn lemma_output() {
    }
}

impl TypeMul<U<9>> for U<18> {
    type Output = U<162>;
    const VALUE: usize = 162;

    proof fn lemma_output() {
    }
}

impl TypeMul<U<10>> for U<18> {
    type Output = U<180>;
    const VALUE: usize = 180;

    proof fn lemma_output() {
    }
}

impl TypeMul<U<11>> for U<18> {
    type Output = U<198>;
    const VALUE: usize = 198;

    proof fn lemma_output() {
    }
}

impl TypeMul<U<12>> for U<18> {
    type Output = U<216>;
    const VALUE: usize = 216;

    proof fn lemma_output() {
    }
}

impl TypeMul<U<13>> for U<18> {
    type Output = U<234>;
    const VALUE: usize = 234;

    proof fn lemma_output() {
    }
}

impl TypeMul<U<14>> for U<18> {
    type Output = U<252>;
    const VALUE: usize = 252;

    proof fn lemma_output() {
    }
}

impl TypeMul<U<15>> for U<18> {
    type Output = U<270>;
    const VALUE: usize = 270;

    proof fn lemma_output() {
    }
}

impl TypeMul<U<16>> for U<18> {
    type Output = U<288>;
    const VALUE: usize = 288;

    proof fn lemma_output() {
    }
}

impl TypeMul<U<17>> for U<18> {
    type Output = U<306>;
    const VALUE: usize = 306;

    proof fn lemma_output() {
    }
}

impl TypeMul<U<18>> for U<18> {
    type Output = U<324>;
    const VALUE: usize = 324;

    proof fn lemma_output() {
    }
}

impl TypeMul<U<19>> for U<18> {
    type Output = U<342>;
    const VALUE: usize = 342;

    proof fn lemma_output() {
    }
}

impl TypeMul<U<20>> for U<18> {
    type Output = U<360>;
    const VALUE: usize = 360;

    proof fn lemma_output() {
    }
}

impl TypeMul<U<21>> for U<18> {
    type Output = U<378>;
    const VALUE: usize = 378;

    proof fn lemma_output() {
    }
}

impl TypeMul<U<22>> for U<18> {
    type Output = U<396>;
    const VALUE: usize = 396;

    proof fn lemma_output() {
    }
}

impl TypeMul<U<23>> for U<18> {
    type Output = U<414>;
    const VALUE: usize = 414;

    proof fn lemma_output() {
    }
}

impl TypeMul<U<24>> for U<18> {
    type Output = U<432>;
    const VALUE: usize = 432;

    proof fn lemma_output() {
    }
}

impl TypeMul<U<25>> for U<18> {
    type Output = U<450>;
    const VALUE: usize = 450;

    proof fn lemma_output() {
    }
}

impl TypeMul<U<26>> for U<18> {
    type Output = U<468>;
    const VALUE: usize = 468;

    proof fn lemma_output() {
    }
}

impl TypeMul<U<27>> for U<18> {
    type Output = U<486>;
    const VALUE: usize = 486;

    proof fn lemma_output() {
    }
}

impl TypeMul<U<28>> for U<18> {
    type Output = U<504>;
    const VALUE: usize = 504;

    proof fn lemma_output() {
    }
}

impl TypeMul<U<29>> for U<18> {
    type Output = U<522>;
    const VALUE: usize = 522;

    proof fn lemma_output() {
    }
}

impl TypeMul<U<30>> for U<18> {
    type Output = U<540>;
    const VALUE: usize = 540;

    proof fn lemma_output() {
    }
}

impl TypeMul<U<31>> for U<18> {
    type Output = U<558>;
    const VALUE: usize = 558;

    proof fn lemma_output() {
    }
}

impl TypeMul<U<0>> for U<19> {
    type Output = U<0>;
    const VALUE: usize = 0;

    proof fn lemma_output() {
    }
}

impl TypeMul<U<1>> for U<19> {
    type Output = U<19>;
    const VALUE: usize = 19;

    proof fn lemma_output() {
    }
}

impl TypeMul<U<2>> for U<19> {
    type Output = U<38>;
    const VALUE: usize = 38;

    proof fn lemma_output() {
    }
}

impl TypeMul<U<3>> for U<19> {
    type Output = U<57>;
    const VALUE: usize = 57;

    proof fn lemma_output() {
    }
}

impl TypeMul<U<4>> for U<19> {
    type Output = U<76>;
    const VALUE: usize = 76;

    proof fn lemma_output() {
    }
}

impl TypeMul<U<5>> for U<19> {
    type Output = U<95>;
    const VALUE: usize = 95;

    proof fn lemma_output() {
    }
}

impl TypeMul<U<6>> for U<19> {
    type Output = U<114>;
    const VALUE: usize = 114;

    proof fn lemma_output() {
    }
}

impl TypeMul<U<7>> for U<19> {
    type Output = U<133>;
    const VALUE: usize = 133;

    proof fn lemma_output() {
    }
}

impl TypeMul<U<8>> for U<19> {
    type Output = U<152>;
    const VALUE: usize = 152;

    proof fn lemma_output() {
    }
}

impl TypeMul<U<9>> for U<19> {
    type Output = U<171>;
    const VALUE: usize = 171;

    proof fn lemma_output() {
    }
}

impl TypeMul<U<10>> for U<19> {
    type Output = U<190>;
    const VALUE: usize = 190;

    proof fn lemma_output() {
    }
}

impl TypeMul<U<11>> for U<19> {
    type Output = U<209>;
    const VALUE: usize = 209;

    proof fn lemma_output() {
    }
}

impl TypeMul<U<12>> for U<19> {
    type Output = U<228>;
    const VALUE: usize = 228;

    proof fn lemma_output() {
    }
}

impl TypeMul<U<13>> for U<19> {
    type Output = U<247>;
    const VALUE: usize = 247;

    proof fn lemma_output() {
    }
}

impl TypeMul<U<14>> for U<19> {
    type Output = U<266>;
    const VALUE: usize = 266;

    proof fn lemma_output() {
    }
}

impl TypeMul<U<15>> for U<19> {
    type Output = U<285>;
    const VALUE: usize = 285;

    proof fn lemma_output() {
    }
}

impl TypeMul<U<16>> for U<19> {
    type Output = U<304>;
    const VALUE: usize = 304;

    proof fn lemma_output() {
    }
}

impl TypeMul<U<17>> for U<19> {
    type Output = U<323>;
    const VALUE: usize = 323;

    proof fn lemma_output() {
    }
}

impl TypeMul<U<18>> for U<19> {
    type Output = U<342>;
    const VALUE: usize = 342;

    proof fn lemma_output() {
    }
}

impl TypeMul<U<19>> for U<19> {
    type Output = U<361>;
    const VALUE: usize = 361;

    proof fn lemma_output() {
    }
}

impl TypeMul<U<20>> for U<19> {
    type Output = U<380>;
    const VALUE: usize = 380;

    proof fn lemma_output() {
    }
}

impl TypeMul<U<21>> for U<19> {
    type Output = U<399>;
    const VALUE: usize = 399;

    proof fn lemma_output() {
    }
}

impl TypeMul<U<22>> for U<19> {
    type Output = U<418>;
    const VALUE: usize = 418;

    proof fn lemma_output() {
    }
}

impl TypeMul<U<23>> for U<19> {
    type Output = U<437>;
    const VALUE: usize = 437;

    proof fn lemma_output() {
    }
}

impl TypeMul<U<24>> for U<19> {
    type Output = U<456>;
    const VALUE: usize = 456;

    proof fn lemma_output() {
    }
}

impl TypeMul<U<25>> for U<19> {
    type Output = U<475>;
    const VALUE: usize = 475;

    proof fn lemma_output() {
    }
}

impl TypeMul<U<26>> for U<19> {
    type Output = U<494>;
    const VALUE: usize = 494;

    proof fn lemma_output() {
    }
}

impl TypeMul<U<27>> for U<19> {
    type Output = U<513>;
    const VALUE: usize = 513;

    proof fn lemma_output() {
    }
}

impl TypeMul<U<28>> for U<19> {
    type Output = U<532>;
    const VALUE: usize = 532;

    proof fn lemma_output() {
    }
}

impl TypeMul<U<29>> for U<19> {
    type Output = U<551>;
    const VALUE: usize = 551;

    proof fn lemma_output() {
    }
}

impl TypeMul<U<30>> for U<19> {
    type Output = U<570>;
    const VALUE: usize = 570;

    proof fn lemma_output() {
    }
}

impl TypeMul<U<31>> for U<19> {
    type Output = U<589>;
    const VALUE: usize = 589;

    proof fn lemma_output() {
    }
}

impl TypeMul<U<0>> for U<20> {
    type Output = U<0>;
    const VALUE: usize = 0;

    proof fn lemma_output() {
    }
}

impl TypeMul<U<1>> for U<20> {
    type Output = U<20>;
    const VALUE: usize = 20;

    proof fn lemma_output() {
    }
}

impl TypeMul<U<2>> for U<20> {
    type Output = U<40>;
    const VALUE: usize = 40;

    proof fn lemma_output() {
    }
}

impl TypeMul<U<3>> for U<20> {
    type Output = U<60>;
    const VALUE: usize = 60;

    proof fn lemma_output() {
    }
}

impl TypeMul<U<4>> for U<20> {
    type Output = U<80>;
    const VALUE: usize = 80;

    proof fn lemma_output() {
    }
}

impl TypeMul<U<5>> for U<20> {
    type Output = U<100>;
    const VALUE: usize = 100;

    proof fn lemma_output() {
    }
}

impl TypeMul<U<6>> for U<20> {
    type Output = U<120>;
    const VALUE: usize = 120;

    proof fn lemma_output() {
    }
}

impl TypeMul<U<7>> for U<20> {
    type Output = U<140>;
    const VALUE: usize = 140;

    proof fn lemma_output() {
    }
}

impl TypeMul<U<8>> for U<20> {
    type Output = U<160>;
    const VALUE: usize = 160;

    proof fn lemma_output() {
    }
}

impl TypeMul<U<9>> for U<20> {
    type Output = U<180>;
    const VALUE: usize = 180;

    proof fn lemma_output() {
    }
}

impl TypeMul<U<10>> for U<20> {
    type Output = U<200>;
    const VALUE: usize = 200;

    proof fn lemma_output() {
    }
}

impl TypeMul<U<11>> for U<20> {
    type Output = U<220>;
    const VALUE: usize = 220;

    proof fn lemma_output() {
    }
}

impl TypeMul<U<12>> for U<20> {
    type Output = U<240>;
    const VALUE: usize = 240;

    proof fn lemma_output() {
    }
}

impl TypeMul<U<13>> for U<20> {
    type Output = U<260>;
    const VALUE: usize = 260;

    proof fn lemma_output() {
    }
}

impl TypeMul<U<14>> for U<20> {
    type Output = U<280>;
    const VALUE: usize = 280;

    proof fn lemma_output() {
    }
}

impl TypeMul<U<15>> for U<20> {
    type Output = U<300>;
    const VALUE: usize = 300;

    proof fn lemma_output() {
    }
}

impl TypeMul<U<16>> for U<20> {
    type Output = U<320>;
    const VALUE: usize = 320;

    proof fn lemma_output() {
    }
}

impl TypeMul<U<17>> for U<20> {
    type Output = U<340>;
    const VALUE: usize = 340;

    proof fn lemma_output() {
    }
}

impl TypeMul<U<18>> for U<20> {
    type Output = U<360>;
    const VALUE: usize = 360;

    proof fn lemma_output() {
    }
}

impl TypeMul<U<19>> for U<20> {
    type Output = U<380>;
    const VALUE: usize = 380;

    proof fn lemma_output() {
    }
}

impl TypeMul<U<20>> for U<20> {
    type Output = U<400>;
    const VALUE: usize = 400;

    proof fn lemma_output() {
    }
}

impl TypeMul<U<21>> for U<20> {
    type Output = U<420>;
    const VALUE: usize = 420;

    proof fn lemma_output() {
    }
}

impl TypeMul<U<22>> for U<20> {
    type Output = U<440>;
    const VALUE: usize = 440;

    proof fn lemma_output() {
    }
}

impl TypeMul<U<23>> for U<20> {
    type Output = U<460>;
    const VALUE: usize = 460;

    proof fn lemma_output() {
    }
}

impl TypeMul<U<24>> for U<20> {
    type Output = U<480>;
    const VALUE: usize = 480;

    proof fn lemma_output() {
    }
}

impl TypeMul<U<25>> for U<20> {
    type Output = U<500>;
    const VALUE: usize = 500;

    proof fn lemma_output() {
    }
}

impl TypeMul<U<26>> for U<20> {
    type Output = U<520>;
    const VALUE: usize = 520;

    proof fn lemma_output() {
    }
}

impl TypeMul<U<27>> for U<20> {
    type Output = U<540>;
    const VALUE: usize = 540;

    proof fn lemma_output() {
    }
}

impl TypeMul<U<28>> for U<20> {
    type Output = U<560>;
    const VALUE: usize = 560;

    proof fn lemma_output() {
    }
}

impl TypeMul<U<29>> for U<20> {
    type Output = U<580>;
    const VALUE: usize = 580;

    proof fn lemma_output() {
    }
}

impl TypeMul<U<30>> for U<20> {
    type Output = U<600>;
    const VALUE: usize = 600;

    proof fn lemma_output() {
    }
}

impl TypeMul<U<31>> for U<20> {
    type Output = U<620>;
    const VALUE: usize = 620;

    proof fn lemma_output() {
    }
}

impl TypeMul<U<0>> for U<21> {
    type Output = U<0>;
    const VALUE: usize = 0;

    proof fn lemma_output() {
    }
}

impl TypeMul<U<1>> for U<21> {
    type Output = U<21>;
    const VALUE: usize = 21;

    proof fn lemma_output() {
    }
}

impl TypeMul<U<2>> for U<21> {
    type Output = U<42>;
    const VALUE: usize = 42;

    proof fn lemma_output() {
    }
}

impl TypeMul<U<3>> for U<21> {
    type Output = U<63>;
    const VALUE: usize = 63;

    proof fn lemma_output() {
    }
}

impl TypeMul<U<4>> for U<21> {
    type Output = U<84>;
    const VALUE: usize = 84;

    proof fn lemma_output() {
    }
}

impl TypeMul<U<5>> for U<21> {
    type Output = U<105>;
    const VALUE: usize = 105;

    proof fn lemma_output() {
    }
}

impl TypeMul<U<6>> for U<21> {
    type Output = U<126>;
    const VALUE: usize = 126;

    proof fn lemma_output() {
    }
}

impl TypeMul<U<7>> for U<21> {
    type Output = U<147>;
    const VALUE: usize = 147;

    proof fn lemma_output() {
    }
}

impl TypeMul<U<8>> for U<21> {
    type Output = U<168>;
    const VALUE: usize = 168;

    proof fn lemma_output() {
    }
}

impl TypeMul<U<9>> for U<21> {
    type Output = U<189>;
    const VALUE: usize = 189;

    proof fn lemma_output() {
    }
}

impl TypeMul<U<10>> for U<21> {
    type Output = U<210>;
    const VALUE: usize = 210;

    proof fn lemma_output() {
    }
}

impl TypeMul<U<11>> for U<21> {
    type Output = U<231>;
    const VALUE: usize = 231;

    proof fn lemma_output() {
    }
}

impl TypeMul<U<12>> for U<21> {
    type Output = U<252>;
    const VALUE: usize = 252;

    proof fn lemma_output() {
    }
}

impl TypeMul<U<13>> for U<21> {
    type Output = U<273>;
    const VALUE: usize = 273;

    proof fn lemma_output() {
    }
}

impl TypeMul<U<14>> for U<21> {
    type Output = U<294>;
    const VALUE: usize = 294;

    proof fn lemma_output() {
    }
}

impl TypeMul<U<15>> for U<21> {
    type Output = U<315>;
    const VALUE: usize = 315;

    proof fn lemma_output() {
    }
}

impl TypeMul<U<16>> for U<21> {
    type Output = U<336>;
    const VALUE: usize = 336;

    proof fn lemma_output() {
    }
}

impl TypeMul<U<17>> for U<21> {
    type Output = U<357>;
    const VALUE: usize = 357;

    proof fn lemma_output() {
    }
}

impl TypeMul<U<18>> for U<21> {
    type Output = U<378>;
    const VALUE: usize = 378;

    proof fn lemma_output() {
    }
}

impl TypeMul<U<19>> for U<21> {
    type Output = U<399>;
    const VALUE: usize = 399;

    proof fn lemma_output() {
    }
}

impl TypeMul<U<20>> for U<21> {
    type Output = U<420>;
    const VALUE: usize = 420;

    proof fn lemma_output() {
    }
}

impl TypeMul<U<21>> for U<21> {
    type Output = U<441>;
    const VALUE: usize = 441;

    proof fn lemma_output() {
    }
}

impl TypeMul<U<22>> for U<21> {
    type Output = U<462>;
    const VALUE: usize = 462;

    proof fn lemma_output() {
    }
}

impl TypeMul<U<23>> for U<21> {
    type Output = U<483>;
    const VALUE: usize = 483;

    proof fn lemma_output() {
    }
}

impl TypeMul<U<24>> for U<21> {
    type Output = U<504>;
    const VALUE: usize = 504;

    proof fn lemma_output() {
    }
}

impl TypeMul<U<25>> for U<21> {
    type Output = U<525>;
    const VALUE: usize = 525;

    proof fn lemma_output() {
    }
}

impl TypeMul<U<26>> for U<21> {
    type Output = U<546>;
    const VALUE: usize = 546;

    proof fn lemma_output() {
    }
}

impl TypeMul<U<27>> for U<21> {
    type Output = U<567>;
    const VALUE: usize = 567;

    proof fn lemma_output() {
    }
}

impl TypeMul<U<28>> for U<21> {
    type Output = U<588>;
    const VALUE: usize = 588;

    proof fn lemma_output() {
    }
}

impl TypeMul<U<29>> for U<21> {
    type Output = U<609>;
    const VALUE: usize = 609;

    proof fn lemma_output() {
    }
}

impl TypeMul<U<30>> for U<21> {
    type Output = U<630>;
    const VALUE: usize = 630;

    proof fn lemma_output() {
    }
}

impl TypeMul<U<31>> for U<21> {
    type Output = U<651>;
    const VALUE: usize = 651;

    proof fn lemma_output() {
    }
}

impl TypeMul<U<0>> for U<22> {
    type Output = U<0>;
    const VALUE: usize = 0;

    proof fn lemma_output() {
    }
}

impl TypeMul<U<1>> for U<22> {
    type Output = U<22>;
    const VALUE: usize = 22;

    proof fn lemma_output() {
    }
}

impl TypeMul<U<2>> for U<22> {
    type Output = U<44>;
    const VALUE: usize = 44;

    proof fn lemma_output() {
    }
}

impl TypeMul<U<3>> for U<22> {
    type Output = U<66>;
    const VALUE: usize = 66;

    proof fn lemma_output() {
    }
}

impl TypeMul<U<4>> for U<22> {
    type Output = U<88>;
    const VALUE: usize = 88;

    proof fn lemma_output() {
    }
}

impl TypeMul<U<5>> for U<22> {
    type Output = U<110>;
    const VALUE: usize = 110;

    proof fn lemma_output() {
    }
}

impl TypeMul<U<6>> for U<22> {
    type Output = U<132>;
    const VALUE: usize = 132;

    proof fn lemma_output() {
    }
}

impl TypeMul<U<7>> for U<22> {
    type Output = U<154>;
    const VALUE: usize = 154;

    proof fn lemma_output() {
    }
}

impl TypeMul<U<8>> for U<22> {
    type Output = U<176>;
    const VALUE: usize = 176;

    proof fn lemma_output() {
    }
}

impl TypeMul<U<9>> for U<22> {
    type Output = U<198>;
    const VALUE: usize = 198;

    proof fn lemma_output() {
    }
}

impl TypeMul<U<10>> for U<22> {
    type Output = U<220>;
    const VALUE: usize = 220;

    proof fn lemma_output() {
    }
}

impl TypeMul<U<11>> for U<22> {
    type Output = U<242>;
    const VALUE: usize = 242;

    proof fn lemma_output() {
    }
}

impl TypeMul<U<12>> for U<22> {
    type Output = U<264>;
    const VALUE: usize = 264;

    proof fn lemma_output() {
    }
}

impl TypeMul<U<13>> for U<22> {
    type Output = U<286>;
    const VALUE: usize = 286;

    proof fn lemma_output() {
    }
}

impl TypeMul<U<14>> for U<22> {
    type Output = U<308>;
    const VALUE: usize = 308;

    proof fn lemma_output() {
    }
}

impl TypeMul<U<15>> for U<22> {
    type Output = U<330>;
    const VALUE: usize = 330;

    proof fn lemma_output() {
    }
}

impl TypeMul<U<16>> for U<22> {
    type Output = U<352>;
    const VALUE: usize = 352;

    proof fn lemma_output() {
    }
}

impl TypeMul<U<17>> for U<22> {
    type Output = U<374>;
    const VALUE: usize = 374;

    proof fn lemma_output() {
    }
}

impl TypeMul<U<18>> for U<22> {
    type Output = U<396>;
    const VALUE: usize = 396;

    proof fn lemma_output() {
    }
}

impl TypeMul<U<19>> for U<22> {
    type Output = U<418>;
    const VALUE: usize = 418;

    proof fn lemma_output() {
    }
}

impl TypeMul<U<20>> for U<22> {
    type Output = U<440>;
    const VALUE: usize = 440;

    proof fn lemma_output() {
    }
}

impl TypeMul<U<21>> for U<22> {
    type Output = U<462>;
    const VALUE: usize = 462;

    proof fn lemma_output() {
    }
}

impl TypeMul<U<22>> for U<22> {
    type Output = U<484>;
    const VALUE: usize = 484;

    proof fn lemma_output() {
    }
}

impl TypeMul<U<23>> for U<22> {
    type Output = U<506>;
    const VALUE: usize = 506;

    proof fn lemma_output() {
    }
}

impl TypeMul<U<24>> for U<22> {
    type Output = U<528>;
    const VALUE: usize = 528;

    proof fn lemma_output() {
    }
}

impl TypeMul<U<25>> for U<22> {
    type Output = U<550>;
    const VALUE: usize = 550;

    proof fn lemma_output() {
    }
}

impl TypeMul<U<26>> for U<22> {
    type Output = U<572>;
    const VALUE: usize = 572;

    proof fn lemma_output() {
    }
}

impl TypeMul<U<27>> for U<22> {
    type Output = U<594>;
    const VALUE: usize = 594;

    proof fn lemma_output() {
    }
}

impl TypeMul<U<28>> for U<22> {
    type Output = U<616>;
    const VALUE: usize = 616;

    proof fn lemma_output() {
    }
}

impl TypeMul<U<29>> for U<22> {
    type Output = U<638>;
    const VALUE: usize = 638;

    proof fn lemma_output() {
    }
}

impl TypeMul<U<30>> for U<22> {
    type Output = U<660>;
    const VALUE: usize = 660;

    proof fn lemma_output() {
    }
}

impl TypeMul<U<31>> for U<22> {
    type Output = U<682>;
    const VALUE: usize = 682;

    proof fn lemma_output() {
    }
}

impl TypeMul<U<0>> for U<23> {
    type Output = U<0>;
    const VALUE: usize = 0;

    proof fn lemma_output() {
    }
}

impl TypeMul<U<1>> for U<23> {
    type Output = U<23>;
    const VALUE: usize = 23;

    proof fn lemma_output() {
    }
}

impl TypeMul<U<2>> for U<23> {
    type Output = U<46>;
    const VALUE: usize = 46;

    proof fn lemma_output() {
    }
}

impl TypeMul<U<3>> for U<23> {
    type Output = U<69>;
    const VALUE: usize = 69;

    proof fn lemma_output() {
    }
}

impl TypeMul<U<4>> for U<23> {
    type Output = U<92>;
    const VALUE: usize = 92;

    proof fn lemma_output() {
    }
}

impl TypeMul<U<5>> for U<23> {
    type Output = U<115>;
    const VALUE: usize = 115;

    proof fn lemma_output() {
    }
}

impl TypeMul<U<6>> for U<23> {
    type Output = U<138>;
    const VALUE: usize = 138;

    proof fn lemma_output() {
    }
}

impl TypeMul<U<7>> for U<23> {
    type Output = U<161>;
    const VALUE: usize = 161;

    proof fn lemma_output() {
    }
}

impl TypeMul<U<8>> for U<23> {
    type Output = U<184>;
    const VALUE: usize = 184;

    proof fn lemma_output() {
    }
}

impl TypeMul<U<9>> for U<23> {
    type Output = U<207>;
    const VALUE: usize = 207;

    proof fn lemma_output() {
    }
}

impl TypeMul<U<10>> for U<23> {
    type Output = U<230>;
    const VALUE: usize = 230;

    proof fn lemma_output() {
    }
}

impl TypeMul<U<11>> for U<23> {
    type Output = U<253>;
    const VALUE: usize = 253;

    proof fn lemma_output() {
    }
}

impl TypeMul<U<12>> for U<23> {
    type Output = U<276>;
    const VALUE: usize = 276;

    proof fn lemma_output() {
    }
}

impl TypeMul<U<13>> for U<23> {
    type Output = U<299>;
    const VALUE: usize = 299;

    proof fn lemma_output() {
    }
}

impl TypeMul<U<14>> for U<23> {
    type Output = U<322>;
    const VALUE: usize = 322;

    proof fn lemma_output() {
    }
}

impl TypeMul<U<15>> for U<23> {
    type Output = U<345>;
    const VALUE: usize = 345;

    proof fn lemma_output() {
    }
}

impl TypeMul<U<16>> for U<23> {
    type Output = U<368>;
    const VALUE: usize = 368;

    proof fn lemma_output() {
    }
}

impl TypeMul<U<17>> for U<23> {
    type Output = U<391>;
    const VALUE: usize = 391;

    proof fn lemma_output() {
    }
}

impl TypeMul<U<18>> for U<23> {
    type Output = U<414>;
    const VALUE: usize = 414;

    proof fn lemma_output() {
    }
}

impl TypeMul<U<19>> for U<23> {
    type Output = U<437>;
    const VALUE: usize = 437;

    proof fn lemma_output() {
    }
}

impl TypeMul<U<20>> for U<23> {
    type Output = U<460>;
    const VALUE: usize = 460;

    proof fn lemma_output() {
    }
}

impl TypeMul<U<21>> for U<23> {
    type Output = U<483>;
    const VALUE: usize = 483;

    proof fn lemma_output() {
    }
}

impl TypeMul<U<22>> for U<23> {
    type Output = U<506>;
    const VALUE: usize = 506;

    proof fn lemma_output() {
    }
}

impl TypeMul<U<23>> for U<23> {
    type Output = U<529>;
    const VALUE: usize = 529;

    proof fn lemma_output() {
    }
}

impl TypeMul<U<24>> for U<23> {
    type Output = U<552>;
    const VALUE: usize = 552;

    proof fn lemma_output() {
    }
}

impl TypeMul<U<25>> for U<23> {
    type Output = U<575>;
    const VALUE: usize = 575;

    proof fn lemma_output() {
    }
}

impl TypeMul<U<26>> for U<23> {
    type Output = U<598>;
    const VALUE: usize = 598;

    proof fn lemma_output() {
    }
}

impl TypeMul<U<27>> for U<23> {
    type Output = U<621>;
    const VALUE: usize = 621;

    proof fn lemma_output() {
    }
}

impl TypeMul<U<28>> for U<23> {
    type Output = U<644>;
    const VALUE: usize = 644;

    proof fn lemma_output() {
    }
}

impl TypeMul<U<29>> for U<23> {
    type Output = U<667>;
    const VALUE: usize = 667;

    proof fn lemma_output() {
    }
}

impl TypeMul<U<30>> for U<23> {
    type Output = U<690>;
    const VALUE: usize = 690;

    proof fn lemma_output() {
    }
}

impl TypeMul<U<31>> for U<23> {
    type Output = U<713>;
    const VALUE: usize = 713;

    proof fn lemma_output() {
    }
}

impl TypeMul<U<0>> for U<24> {
    type Output = U<0>;
    const VALUE: usize = 0;

    proof fn lemma_output() {
    }
}

impl TypeMul<U<1>> for U<24> {
    type Output = U<24>;
    const VALUE: usize = 24;

    proof fn lemma_output() {
    }
}

impl TypeMul<U<2>> for U<24> {
    type Output = U<48>;
    const VALUE: usize = 48;

    proof fn lemma_output() {
    }
}

impl TypeMul<U<3>> for U<24> {
    type Output = U<72>;
    const VALUE: usize = 72;

    proof fn lemma_output() {
    }
}

impl TypeMul<U<4>> for U<24> {
    type Output = U<96>;
    const VALUE: usize = 96;

    proof fn lemma_output() {
    }
}

impl TypeMul<U<5>> for U<24> {
    type Output = U<120>;
    const VALUE: usize = 120;

    proof fn lemma_output() {
    }
}

impl TypeMul<U<6>> for U<24> {
    type Output = U<144>;
    const VALUE: usize = 144;

    proof fn lemma_output() {
    }
}

impl TypeMul<U<7>> for U<24> {
    type Output = U<168>;
    const VALUE: usize = 168;

    proof fn lemma_output() {
    }
}

impl TypeMul<U<8>> for U<24> {
    type Output = U<192>;
    const VALUE: usize = 192;

    proof fn lemma_output() {
    }
}

impl TypeMul<U<9>> for U<24> {
    type Output = U<216>;
    const VALUE: usize = 216;

    proof fn lemma_output() {
    }
}

impl TypeMul<U<10>> for U<24> {
    type Output = U<240>;
    const VALUE: usize = 240;

    proof fn lemma_output() {
    }
}

impl TypeMul<U<11>> for U<24> {
    type Output = U<264>;
    const VALUE: usize = 264;

    proof fn lemma_output() {
    }
}

impl TypeMul<U<12>> for U<24> {
    type Output = U<288>;
    const VALUE: usize = 288;

    proof fn lemma_output() {
    }
}

impl TypeMul<U<13>> for U<24> {
    type Output = U<312>;
    const VALUE: usize = 312;

    proof fn lemma_output() {
    }
}

impl TypeMul<U<14>> for U<24> {
    type Output = U<336>;
    const VALUE: usize = 336;

    proof fn lemma_output() {
    }
}

impl TypeMul<U<15>> for U<24> {
    type Output = U<360>;
    const VALUE: usize = 360;

    proof fn lemma_output() {
    }
}

impl TypeMul<U<16>> for U<24> {
    type Output = U<384>;
    const VALUE: usize = 384;

    proof fn lemma_output() {
    }
}

impl TypeMul<U<17>> for U<24> {
    type Output = U<408>;
    const VALUE: usize = 408;

    proof fn lemma_output() {
    }
}

impl TypeMul<U<18>> for U<24> {
    type Output = U<432>;
    const VALUE: usize = 432;

    proof fn lemma_output() {
    }
}

impl TypeMul<U<19>> for U<24> {
    type Output = U<456>;
    const VALUE: usize = 456;

    proof fn lemma_output() {
    }
}

impl TypeMul<U<20>> for U<24> {
    type Output = U<480>;
    const VALUE: usize = 480;

    proof fn lemma_output() {
    }
}

impl TypeMul<U<21>> for U<24> {
    type Output = U<504>;
    const VALUE: usize = 504;

    proof fn lemma_output() {
    }
}

impl TypeMul<U<22>> for U<24> {
    type Output = U<528>;
    const VALUE: usize = 528;

    proof fn lemma_output() {
    }
}

impl TypeMul<U<23>> for U<24> {
    type Output = U<552>;
    const VALUE: usize = 552;

    proof fn lemma_output() {
    }
}

impl TypeMul<U<24>> for U<24> {
    type Output = U<576>;
    const VALUE: usize = 576;

    proof fn lemma_output() {
    }
}

impl TypeMul<U<25>> for U<24> {
    type Output = U<600>;
    const VALUE: usize = 600;

    proof fn lemma_output() {
    }
}

impl TypeMul<U<26>> for U<24> {
    type Output = U<624>;
    const VALUE: usize = 624;

    proof fn lemma_output() {
    }
}

impl TypeMul<U<27>> for U<24> {
    type Output = U<648>;
    const VALUE: usize = 648;

    proof fn lemma_output() {
    }
}

impl TypeMul<U<28>> for U<24> {
    type Output = U<672>;
    const VALUE: usize = 672;

    proof fn lemma_output() {
    }
}

impl TypeMul<U<29>> for U<24> {
    type Output = U<696>;
    const VALUE: usize = 696;

    proof fn lemma_output() {
    }
}

impl TypeMul<U<30>> for U<24> {
    type Output = U<720>;
    const VALUE: usize = 720;

    proof fn lemma_output() {
    }
}

impl TypeMul<U<31>> for U<24> {
    type Output = U<744>;
    const VALUE: usize = 744;

    proof fn lemma_output() {
    }
}

impl TypeMul<U<0>> for U<25> {
    type Output = U<0>;
    const VALUE: usize = 0;

    proof fn lemma_output() {
    }
}

impl TypeMul<U<1>> for U<25> {
    type Output = U<25>;
    const VALUE: usize = 25;

    proof fn lemma_output() {
    }
}

impl TypeMul<U<2>> for U<25> {
    type Output = U<50>;
    const VALUE: usize = 50;

    proof fn lemma_output() {
    }
}

impl TypeMul<U<3>> for U<25> {
    type Output = U<75>;
    const VALUE: usize = 75;

    proof fn lemma_output() {
    }
}

impl TypeMul<U<4>> for U<25> {
    type Output = U<100>;
    const VALUE: usize = 100;

    proof fn lemma_output() {
    }
}

impl TypeMul<U<5>> for U<25> {
    type Output = U<125>;
    const VALUE: usize = 125;

    proof fn lemma_output() {
    }
}

impl TypeMul<U<6>> for U<25> {
    type Output = U<150>;
    const VALUE: usize = 150;

    proof fn lemma_output() {
    }
}

impl TypeMul<U<7>> for U<25> {
    type Output = U<175>;
    const VALUE: usize = 175;

    proof fn lemma_output() {
    }
}

impl TypeMul<U<8>> for U<25> {
    type Output = U<200>;
    const VALUE: usize = 200;

    proof fn lemma_output() {
    }
}

impl TypeMul<U<9>> for U<25> {
    type Output = U<225>;
    const VALUE: usize = 225;

    proof fn lemma_output() {
    }
}

impl TypeMul<U<10>> for U<25> {
    type Output = U<250>;
    const VALUE: usize = 250;

    proof fn lemma_output() {
    }
}

impl TypeMul<U<11>> for U<25> {
    type Output = U<275>;
    const VALUE: usize = 275;

    proof fn lemma_output() {
    }
}

impl TypeMul<U<12>> for U<25> {
    type Output = U<300>;
    const VALUE: usize = 300;

    proof fn lemma_output() {
    }
}

impl TypeMul<U<13>> for U<25> {
    type Output = U<325>;
    const VALUE: usize = 325;

    proof fn lemma_output() {
    }
}

impl TypeMul<U<14>> for U<25> {
    type Output = U<350>;
    const VALUE: usize = 350;

    proof fn lemma_output() {
    }
}

impl TypeMul<U<15>> for U<25> {
    type Output = U<375>;
    const VALUE: usize = 375;

    proof fn lemma_output() {
    }
}

impl TypeMul<U<16>> for U<25> {
    type Output = U<400>;
    const VALUE: usize = 400;

    proof fn lemma_output() {
    }
}

impl TypeMul<U<17>> for U<25> {
    type Output = U<425>;
    const VALUE: usize = 425;

    proof fn lemma_output() {
    }
}

impl TypeMul<U<18>> for U<25> {
    type Output = U<450>;
    const VALUE: usize = 450;

    proof fn lemma_output() {
    }
}

impl TypeMul<U<19>> for U<25> {
    type Output = U<475>;
    const VALUE: usize = 475;

    proof fn lemma_output() {
    }
}

impl TypeMul<U<20>> for U<25> {
    type Output = U<500>;
    const VALUE: usize = 500;

    proof fn lemma_output() {
    }
}

impl TypeMul<U<21>> for U<25> {
    type Output = U<525>;
    const VALUE: usize = 525;

    proof fn lemma_output() {
    }
}

impl TypeMul<U<22>> for U<25> {
    type Output = U<550>;
    const VALUE: usize = 550;

    proof fn lemma_output() {
    }
}

impl TypeMul<U<23>> for U<25> {
    type Output = U<575>;
    const VALUE: usize = 575;

    proof fn lemma_output() {
    }
}

impl TypeMul<U<24>> for U<25> {
    type Output = U<600>;
    const VALUE: usize = 600;

    proof fn lemma_output() {
    }
}

impl TypeMul<U<25>> for U<25> {
    type Output = U<625>;
    const VALUE: usize = 625;

    proof fn lemma_output() {
    }
}

impl TypeMul<U<26>> for U<25> {
    type Output = U<650>;
    const VALUE: usize = 650;

    proof fn lemma_output() {
    }
}

impl TypeMul<U<27>> for U<25> {
    type Output = U<675>;
    const VALUE: usize = 675;

    proof fn lemma_output() {
    }
}

impl TypeMul<U<28>> for U<25> {
    type Output = U<700>;
    const VALUE: usize = 700;

    proof fn lemma_output() {
    }
}

impl TypeMul<U<29>> for U<25> {
    type Output = U<725>;
    const VALUE: usize = 725;

    proof fn lemma_output() {
    }
}

impl TypeMul<U<30>> for U<25> {
    type Output = U<750>;
    const VALUE: usize = 750;

    proof fn lemma_output() {
    }
}

impl TypeMul<U<31>> for U<25> {
    type Output = U<775>;
    const VALUE: usize = 775;

    proof fn lemma_output() {
    }
}

impl TypeMul<U<0>> for U<26> {
    type Output = U<0>;
    const VALUE: usize = 0;

    proof fn lemma_output() {
    }
}

impl TypeMul<U<1>> for U<26> {
    type Output = U<26>;
    const VALUE: usize = 26;

    proof fn lemma_output() {
    }
}

impl TypeMul<U<2>> for U<26> {
    type Output = U<52>;
    const VALUE: usize = 52;

    proof fn lemma_output() {
    }
}

impl TypeMul<U<3>> for U<26> {
    type Output = U<78>;
    const VALUE: usize = 78;

    proof fn lemma_output() {
    }
}

impl TypeMul<U<4>> for U<26> {
    type Output = U<104>;
    const VALUE: usize = 104;

    proof fn lemma_output() {
    }
}

impl TypeMul<U<5>> for U<26> {
    type Output = U<130>;
    const VALUE: usize = 130;

    proof fn lemma_output() {
    }
}

impl TypeMul<U<6>> for U<26> {
    type Output = U<156>;
    const VALUE: usize = 156;

    proof fn lemma_output() {
    }
}

impl TypeMul<U<7>> for U<26> {
    type Output = U<182>;
    const VALUE: usize = 182;

    proof fn lemma_output() {
    }
}

impl TypeMul<U<8>> for U<26> {
    type Output = U<208>;
    const VALUE: usize = 208;

    proof fn lemma_output() {
    }
}

impl TypeMul<U<9>> for U<26> {
    type Output = U<234>;
    const VALUE: usize = 234;

    proof fn lemma_output() {
    }
}

impl TypeMul<U<10>> for U<26> {
    type Output = U<260>;
    const VALUE: usize = 260;

    proof fn lemma_output() {
    }
}

impl TypeMul<U<11>> for U<26> {
    type Output = U<286>;
    const VALUE: usize = 286;

    proof fn lemma_output() {
    }
}

impl TypeMul<U<12>> for U<26> {
    type Output = U<312>;
    const VALUE: usize = 312;

    proof fn lemma_output() {
    }
}

impl TypeMul<U<13>> for U<26> {
    type Output = U<338>;
    const VALUE: usize = 338;

    proof fn lemma_output() {
    }
}

impl TypeMul<U<14>> for U<26> {
    type Output = U<364>;
    const VALUE: usize = 364;

    proof fn lemma_output() {
    }
}

impl TypeMul<U<15>> for U<26> {
    type Output = U<390>;
    const VALUE: usize = 390;

    proof fn lemma_output() {
    }
}

impl TypeMul<U<16>> for U<26> {
    type Output = U<416>;
    const VALUE: usize = 416;

    proof fn lemma_output() {
    }
}

impl TypeMul<U<17>> for U<26> {
    type Output = U<442>;
    const VALUE: usize = 442;

    proof fn lemma_output() {
    }
}

impl TypeMul<U<18>> for U<26> {
    type Output = U<468>;
    const VALUE: usize = 468;

    proof fn lemma_output() {
    }
}

impl TypeMul<U<19>> for U<26> {
    type Output = U<494>;
    const VALUE: usize = 494;

    proof fn lemma_output() {
    }
}

impl TypeMul<U<20>> for U<26> {
    type Output = U<520>;
    const VALUE: usize = 520;

    proof fn lemma_output() {
    }
}

impl TypeMul<U<21>> for U<26> {
    type Output = U<546>;
    const VALUE: usize = 546;

    proof fn lemma_output() {
    }
}

impl TypeMul<U<22>> for U<26> {
    type Output = U<572>;
    const VALUE: usize = 572;

    proof fn lemma_output() {
    }
}

impl TypeMul<U<23>> for U<26> {
    type Output = U<598>;
    const VALUE: usize = 598;

    proof fn lemma_output() {
    }
}

impl TypeMul<U<24>> for U<26> {
    type Output = U<624>;
    const VALUE: usize = 624;

    proof fn lemma_output() {
    }
}

impl TypeMul<U<25>> for U<26> {
    type Output = U<650>;
    const VALUE: usize = 650;

    proof fn lemma_output() {
    }
}

impl TypeMul<U<26>> for U<26> {
    type Output = U<676>;
    const VALUE: usize = 676;

    proof fn lemma_output() {
    }
}

impl TypeMul<U<27>> for U<26> {
    type Output = U<702>;
    const VALUE: usize = 702;

    proof fn lemma_output() {
    }
}

impl TypeMul<U<28>> for U<26> {
    type Output = U<728>;
    const VALUE: usize = 728;

    proof fn lemma_output() {
    }
}

impl TypeMul<U<29>> for U<26> {
    type Output = U<754>;
    const VALUE: usize = 754;

    proof fn lemma_output() {
    }
}

impl TypeMul<U<30>> for U<26> {
    type Output = U<780>;
    const VALUE: usize = 780;

    proof fn lemma_output() {
    }
}

impl TypeMul<U<31>> for U<26> {
    type Output = U<806>;
    const VALUE: usize = 806;

    proof fn lemma_output() {
    }
}

impl TypeMul<U<0>> for U<27> {
    type Output = U<0>;
    const VALUE: usize = 0;

    proof fn lemma_output() {
    }
}

impl TypeMul<U<1>> for U<27> {
    type Output = U<27>;
    const VALUE: usize = 27;

    proof fn lemma_output() {
    }
}

impl TypeMul<U<2>> for U<27> {
    type Output = U<54>;
    const VALUE: usize = 54;

    proof fn lemma_output() {
    }
}

impl TypeMul<U<3>> for U<27> {
    type Output = U<81>;
    const VALUE: usize = 81;

    proof fn lemma_output() {
    }
}

impl TypeMul<U<4>> for U<27> {
    type Output = U<108>;
    const VALUE: usize = 108;

    proof fn lemma_output() {
    }
}

impl TypeMul<U<5>> for U<27> {
    type Output = U<135>;
    const VALUE: usize = 135;

    proof fn lemma_output() {
    }
}

impl TypeMul<U<6>> for U<27> {
    type Output = U<162>;
    const VALUE: usize = 162;

    proof fn lemma_output() {
    }
}

impl TypeMul<U<7>> for U<27> {
    type Output = U<189>;
    const VALUE: usize = 189;

    proof fn lemma_output() {
    }
}

impl TypeMul<U<8>> for U<27> {
    type Output = U<216>;
    const VALUE: usize = 216;

    proof fn lemma_output() {
    }
}

impl TypeMul<U<9>> for U<27> {
    type Output = U<243>;
    const VALUE: usize = 243;

    proof fn lemma_output() {
    }
}

impl TypeMul<U<10>> for U<27> {
    type Output = U<270>;
    const VALUE: usize = 270;

    proof fn lemma_output() {
    }
}

impl TypeMul<U<11>> for U<27> {
    type Output = U<297>;
    const VALUE: usize = 297;

    proof fn lemma_output() {
    }
}

impl TypeMul<U<12>> for U<27> {
    type Output = U<324>;
    const VALUE: usize = 324;

    proof fn lemma_output() {
    }
}

impl TypeMul<U<13>> for U<27> {
    type Output = U<351>;
    const VALUE: usize = 351;

    proof fn lemma_output() {
    }
}

impl TypeMul<U<14>> for U<27> {
    type Output = U<378>;
    const VALUE: usize = 378;

    proof fn lemma_output() {
    }
}

impl TypeMul<U<15>> for U<27> {
    type Output = U<405>;
    const VALUE: usize = 405;

    proof fn lemma_output() {
    }
}

impl TypeMul<U<16>> for U<27> {
    type Output = U<432>;
    const VALUE: usize = 432;

    proof fn lemma_output() {
    }
}

impl TypeMul<U<17>> for U<27> {
    type Output = U<459>;
    const VALUE: usize = 459;

    proof fn lemma_output() {
    }
}

impl TypeMul<U<18>> for U<27> {
    type Output = U<486>;
    const VALUE: usize = 486;

    proof fn lemma_output() {
    }
}

impl TypeMul<U<19>> for U<27> {
    type Output = U<513>;
    const VALUE: usize = 513;

    proof fn lemma_output() {
    }
}

impl TypeMul<U<20>> for U<27> {
    type Output = U<540>;
    const VALUE: usize = 540;

    proof fn lemma_output() {
    }
}

impl TypeMul<U<21>> for U<27> {
    type Output = U<567>;
    const VALUE: usize = 567;

    proof fn lemma_output() {
    }
}

impl TypeMul<U<22>> for U<27> {
    type Output = U<594>;
    const VALUE: usize = 594;

    proof fn lemma_output() {
    }
}

impl TypeMul<U<23>> for U<27> {
    type Output = U<621>;
    const VALUE: usize = 621;

    proof fn lemma_output() {
    }
}

impl TypeMul<U<24>> for U<27> {
    type Output = U<648>;
    const VALUE: usize = 648;

    proof fn lemma_output() {
    }
}

impl TypeMul<U<25>> for U<27> {
    type Output = U<675>;
    const VALUE: usize = 675;

    proof fn lemma_output() {
    }
}

impl TypeMul<U<26>> for U<27> {
    type Output = U<702>;
    const VALUE: usize = 702;

    proof fn lemma_output() {
    }
}

impl TypeMul<U<27>> for U<27> {
    type Output = U<729>;
    const VALUE: usize = 729;

    proof fn lemma_output() {
    }
}

impl TypeMul<U<28>> for U<27> {
    type Output = U<756>;
    const VALUE: usize = 756;

    proof fn lemma_output() {
    }
}

impl TypeMul<U<29>> for U<27> {
    type Output = U<783>;
    const VALUE: usize = 783;

    proof fn lemma_output() {
    }
}

impl TypeMul<U<30>> for U<27> {
    type Output = U<810>;
    const VALUE: usize = 810;

    proof fn lemma_output() {
    }
}

impl TypeMul<U<31>> for U<27> {
    type Output = U<837>;
    const VALUE: usize = 837;

    proof fn lemma_output() {
    }
}

impl TypeMul<U<0>> for U<28> {
    type Output = U<0>;
    const VALUE: usize = 0;

    proof fn lemma_output() {
    }
}

impl TypeMul<U<1>> for U<28> {
    type Output = U<28>;
    const VALUE: usize = 28;

    proof fn lemma_output() {
    }
}

impl TypeMul<U<2>> for U<28> {
    type Output = U<56>;
    const VALUE: usize = 56;

    proof fn lemma_output() {
    }
}

impl TypeMul<U<3>> for U<28> {
    type Output = U<84>;
    const VALUE: usize = 84;

    proof fn lemma_output() {
    }
}

impl TypeMul<U<4>> for U<28> {
    type Output = U<112>;
    const VALUE: usize = 112;

    proof fn lemma_output() {
    }
}

impl TypeMul<U<5>> for U<28> {
    type Output = U<140>;
    const VALUE: usize = 140;

    proof fn lemma_output() {
    }
}

impl TypeMul<U<6>> for U<28> {
    type Output = U<168>;
    const VALUE: usize = 168;

    proof fn lemma_output() {
    }
}

impl TypeMul<U<7>> for U<28> {
    type Output = U<196>;
    const VALUE: usize = 196;

    proof fn lemma_output() {
    }
}

impl TypeMul<U<8>> for U<28> {
    type Output = U<224>;
    const VALUE: usize = 224;

    proof fn lemma_output() {
    }
}

impl TypeMul<U<9>> for U<28> {
    type Output = U<252>;
    const VALUE: usize = 252;

    proof fn lemma_output() {
    }
}

impl TypeMul<U<10>> for U<28> {
    type Output = U<280>;
    const VALUE: usize = 280;

    proof fn lemma_output() {
    }
}

impl TypeMul<U<11>> for U<28> {
    type Output = U<308>;
    const VALUE: usize = 308;

    proof fn lemma_output() {
    }
}

impl TypeMul<U<12>> for U<28> {
    type Output = U<336>;
    const VALUE: usize = 336;

    proof fn lemma_output() {
    }
}

impl TypeMul<U<13>> for U<28> {
    type Output = U<364>;
    const VALUE: usize = 364;

    proof fn lemma_output() {
    }
}

impl TypeMul<U<14>> for U<28> {
    type Output = U<392>;
    const VALUE: usize = 392;

    proof fn lemma_output() {
    }
}

impl TypeMul<U<15>> for U<28> {
    type Output = U<420>;
    const VALUE: usize = 420;

    proof fn lemma_output() {
    }
}

impl TypeMul<U<16>> for U<28> {
    type Output = U<448>;
    const VALUE: usize = 448;

    proof fn lemma_output() {
    }
}

impl TypeMul<U<17>> for U<28> {
    type Output = U<476>;
    const VALUE: usize = 476;

    proof fn lemma_output() {
    }
}

impl TypeMul<U<18>> for U<28> {
    type Output = U<504>;
    const VALUE: usize = 504;

    proof fn lemma_output() {
    }
}

impl TypeMul<U<19>> for U<28> {
    type Output = U<532>;
    const VALUE: usize = 532;

    proof fn lemma_output() {
    }
}

impl TypeMul<U<20>> for U<28> {
    type Output = U<560>;
    const VALUE: usize = 560;

    proof fn lemma_output() {
    }
}

impl TypeMul<U<21>> for U<28> {
    type Output = U<588>;
    const VALUE: usize = 588;

    proof fn lemma_output() {
    }
}

impl TypeMul<U<22>> for U<28> {
    type Output = U<616>;
    const VALUE: usize = 616;

    proof fn lemma_output() {
    }
}

impl TypeMul<U<23>> for U<28> {
    type Output = U<644>;
    const VALUE: usize = 644;

    proof fn lemma_output() {
    }
}

impl TypeMul<U<24>> for U<28> {
    type Output = U<672>;
    const VALUE: usize = 672;

    proof fn lemma_output() {
    }
}

impl TypeMul<U<25>> for U<28> {
    type Output = U<700>;
    const VALUE: usize = 700;

    proof fn lemma_output() {
    }
}

impl TypeMul<U<26>> for U<28> {
    type Output = U<728>;
    const VALUE: usize = 728;

    proof fn lemma_output() {
    }
}

impl TypeMul<U<27>> for U<28> {
    type Output = U<756>;
    const VALUE: usize = 756;

    proof fn lemma_output() {
    }
}

impl TypeMul<U<28>> for U<28> {
    type Output = U<784>;
    const VALUE: usize = 784;

    proof fn lemma_output() {
    }
}

impl TypeMul<U<29>> for U<28> {
    type Output = U<812>;
    const VALUE: usize = 812;

    proof fn lemma_output() {
    }
}

impl TypeMul<U<30>> for U<28> {
    type Output = U<840>;
    const VALUE: usize = 840;

    proof fn lemma_output() {
    }
}

impl TypeMul<U<31>> for U<28> {
    type Output = U<868>;
    const VALUE: usize = 868;

    proof fn lemma_output() {
    }
}

impl TypeMul<U<0>> for U<29> {
    type Output = U<0>;
    const VALUE: usize = 0;

    proof fn lemma_output() {
    }
}

impl TypeMul<U<1>> for U<29> {
    type Output = U<29>;
    const VALUE: usize = 29;

    proof fn lemma_output() {
    }
}

impl TypeMul<U<2>> for U<29> {
    type Output = U<58>;
    const VALUE: usize = 58;

    proof fn lemma_output() {
    }
}

impl TypeMul<U<3>> for U<29> {
    type Output = U<87>;
    const VALUE: usize = 87;

    proof fn lemma_output() {
    }
}

impl TypeMul<U<4>> for U<29> {
    type Output = U<116>;
    const VALUE: usize = 116;

    proof fn lemma_output() {
    }
}

impl TypeMul<U<5>> for U<29> {
    type Output = U<145>;
    const VALUE: usize = 145;

    proof fn lemma_output() {
    }
}

impl TypeMul<U<6>> for U<29> {
    type Output = U<174>;
    const VALUE: usize = 174;

    proof fn lemma_output() {
    }
}

impl TypeMul<U<7>> for U<29> {
    type Output = U<203>;
    const VALUE: usize = 203;

    proof fn lemma_output() {
    }
}

impl TypeMul<U<8>> for U<29> {
    type Output = U<232>;
    const VALUE: usize = 232;

    proof fn lemma_output() {
    }
}

impl TypeMul<U<9>> for U<29> {
    type Output = U<261>;
    const VALUE: usize = 261;

    proof fn lemma_output() {
    }
}

impl TypeMul<U<10>> for U<29> {
    type Output = U<290>;
    const VALUE: usize = 290;

    proof fn lemma_output() {
    }
}

impl TypeMul<U<11>> for U<29> {
    type Output = U<319>;
    const VALUE: usize = 319;

    proof fn lemma_output() {
    }
}

impl TypeMul<U<12>> for U<29> {
    type Output = U<348>;
    const VALUE: usize = 348;

    proof fn lemma_output() {
    }
}

impl TypeMul<U<13>> for U<29> {
    type Output = U<377>;
    const VALUE: usize = 377;

    proof fn lemma_output() {
    }
}

impl TypeMul<U<14>> for U<29> {
    type Output = U<406>;
    const VALUE: usize = 406;

    proof fn lemma_output() {
    }
}

impl TypeMul<U<15>> for U<29> {
    type Output = U<435>;
    const VALUE: usize = 435;

    proof fn lemma_output() {
    }
}

impl TypeMul<U<16>> for U<29> {
    type Output = U<464>;
    const VALUE: usize = 464;

    proof fn lemma_output() {
    }
}

impl TypeMul<U<17>> for U<29> {
    type Output = U<493>;
    const VALUE: usize = 493;

    proof fn lemma_output() {
    }
}

impl TypeMul<U<18>> for U<29> {
    type Output = U<522>;
    const VALUE: usize = 522;

    proof fn lemma_output() {
    }
}

impl TypeMul<U<19>> for U<29> {
    type Output = U<551>;
    const VALUE: usize = 551;

    proof fn lemma_output() {
    }
}

impl TypeMul<U<20>> for U<29> {
    type Output = U<580>;
    const VALUE: usize = 580;

    proof fn lemma_output() {
    }
}

impl TypeMul<U<21>> for U<29> {
    type Output = U<609>;
    const VALUE: usize = 609;

    proof fn lemma_output() {
    }
}

impl TypeMul<U<22>> for U<29> {
    type Output = U<638>;
    const VALUE: usize = 638;

    proof fn lemma_output() {
    }
}

impl TypeMul<U<23>> for U<29> {
    type Output = U<667>;
    const VALUE: usize = 667;

    proof fn lemma_output() {
    }
}

impl TypeMul<U<24>> for U<29> {
    type Output = U<696>;
    const VALUE: usize = 696;

    proof fn lemma_output() {
    }
}

impl TypeMul<U<25>> for U<29> {
    type Output = U<725>;
    const VALUE: usize = 725;

    proof fn lemma_output() {
    }
}

impl TypeMul<U<26>> for U<29> {
    type Output = U<754>;
    const VALUE: usize = 754;

    proof fn lemma_output() {
    }
}

impl TypeMul<U<27>> for U<29> {
    type Output = U<783>;
    const VALUE: usize = 783;

    proof fn lemma_output() {
    }
}

impl TypeMul<U<28>> for U<29> {
    type Output = U<812>;
    const VALUE: usize = 812;

    proof fn lemma_output() {
    }
}

impl TypeMul<U<29>> for U<29> {
    type Output = U<841>;
    const VALUE: usize = 841;

    proof fn lemma_output() {
    }
}

impl TypeMul<U<30>> for U<29> {
    type Output = U<870>;
    const VALUE: usize = 870;

    proof fn lemma_output() {
    }
}

impl TypeMul<U<31>> for U<29> {
    type Output = U<899>;
    const VALUE: usize = 899;

    proof fn lemma_output() {
    }
}

impl TypeMul<U<0>> for U<30> {
    type Output = U<0>;
    const VALUE: usize = 0;

    proof fn lemma_output() {
    }
}

impl TypeMul<U<1>> for U<30> {
    type Output = U<30>;
    const VALUE: usize = 30;

    proof fn lemma_output() {
    }
}

impl TypeMul<U<2>> for U<30> {
    type Output = U<60>;
    const VALUE: usize = 60;

    proof fn lemma_output() {
    }
}

impl TypeMul<U<3>> for U<30> {
    type Output = U<90>;
    const VALUE: usize = 90;

    proof fn lemma_output() {
    }
}

impl TypeMul<U<4>> for U<30> {
    type Output = U<120>;
    const VALUE: usize = 120;

    proof fn lemma_output() {
    }
}

impl TypeMul<U<5>> for U<30> {
    type Output = U<150>;
    const VALUE: usize = 150;

    proof fn lemma_output() {
    }
}

impl TypeMul<U<6>> for U<30> {
    type Output = U<180>;
    const VALUE: usize = 180;

    proof fn lemma_output() {
    }
}

impl TypeMul<U<7>> for U<30> {
    type Output = U<210>;
    const VALUE: usize = 210;

    proof fn lemma_output() {
    }
}

impl TypeMul<U<8>> for U<30> {
    type Output = U<240>;
    const VALUE: usize = 240;

    proof fn lemma_output() {
    }
}

impl TypeMul<U<9>> for U<30> {
    type Output = U<270>;
    const VALUE: usize = 270;

    proof fn lemma_output() {
    }
}

impl TypeMul<U<10>> for U<30> {
    type Output = U<300>;
    const VALUE: usize = 300;

    proof fn lemma_output() {
    }
}

impl TypeMul<U<11>> for U<30> {
    type Output = U<330>;
    const VALUE: usize = 330;

    proof fn lemma_output() {
    }
}

impl TypeMul<U<12>> for U<30> {
    type Output = U<360>;
    const VALUE: usize = 360;

    proof fn lemma_output() {
    }
}

impl TypeMul<U<13>> for U<30> {
    type Output = U<390>;
    const VALUE: usize = 390;

    proof fn lemma_output() {
    }
}

impl TypeMul<U<14>> for U<30> {
    type Output = U<420>;
    const VALUE: usize = 420;

    proof fn lemma_output() {
    }
}

impl TypeMul<U<15>> for U<30> {
    type Output = U<450>;
    const VALUE: usize = 450;

    proof fn lemma_output() {
    }
}

impl TypeMul<U<16>> for U<30> {
    type Output = U<480>;
    const VALUE: usize = 480;

    proof fn lemma_output() {
    }
}

impl TypeMul<U<17>> for U<30> {
    type Output = U<510>;
    const VALUE: usize = 510;

    proof fn lemma_output() {
    }
}

impl TypeMul<U<18>> for U<30> {
    type Output = U<540>;
    const VALUE: usize = 540;

    proof fn lemma_output() {
    }
}

impl TypeMul<U<19>> for U<30> {
    type Output = U<570>;
    const VALUE: usize = 570;

    proof fn lemma_output() {
    }
}

impl TypeMul<U<20>> for U<30> {
    type Output = U<600>;
    const VALUE: usize = 600;

    proof fn lemma_output() {
    }
}

impl TypeMul<U<21>> for U<30> {
    type Output = U<630>;
    const VALUE: usize = 630;

    proof fn lemma_output() {
    }
}

impl TypeMul<U<22>> for U<30> {
    type Output = U<660>;
    const VALUE: usize = 660;

    proof fn lemma_output() {
    }
}

impl TypeMul<U<23>> for U<30> {
    type Output = U<690>;
    const VALUE: usize = 690;

    proof fn lemma_output() {
    }
}

impl TypeMul<U<24>> for U<30> {
    type Output = U<720>;
    const VALUE: usize = 720;

    proof fn lemma_output() {
    }
}

impl TypeMul<U<25>> for U<30> {
    type Output = U<750>;
    const VALUE: usize = 750;

    proof fn lemma_output() {
    }
}

impl TypeMul<U<26>> for U<30> {
    type Output = U<780>;
    const VALUE: usize = 780;

    proof fn lemma_output() {
    }
}

impl TypeMul<U<27>> for U<30> {
    type Output = U<810>;
    const VALUE: usize = 810;

    proof fn lemma_output() {
    }
}

impl TypeMul<U<28>> for U<30> {
    type Output = U<840>;
    const VALUE: usize = 840;

    proof fn lemma_output() {
    }
}

impl TypeMul<U<29>> for U<30> {
    type Output = U<870>;
    const VALUE: usize = 870;

    proof fn lemma_output() {
    }
}

impl TypeMul<U<30>> for U<30> {
    type Output = U<900>;
    const VALUE: usize = 900;

    proof fn lemma_output() {
    }
}

impl TypeMul<U<31>> for U<30> {
    type Output = U<930>;
    const VALUE: usize = 930;

    proof fn lemma_output() {
    }
}

impl TypeMul<U<0>> for U<31> {
    type Output = U<0>;
    const VALUE: usize = 0;

    proof fn lemma_output() {
    }
}

impl TypeMul<U<1>> for U<31> {
    type Output = U<31>;
    const VALUE: usize = 31;

    proof fn lemma_output() {
    }
}

impl TypeMul<U<2>> for U<31> {
    type Output = U<62>;
    const VALUE: usize = 62;

    proof fn lemma_output() {
    }
}

impl TypeMul<U<3>> for U<31> {
    type Output = U<93>;
    const VALUE: usize = 93;

    proof fn lemma_output() {
    }
}

impl TypeMul<U<4>> for U<31> {
    type Output = U<124>;
    const VALUE: usize = 124;

    proof fn lemma_output() {
    }
}

impl TypeMul<U<5>> for U<31> {
    type Output = U<155>;
    const VALUE: usize = 155;

    proof fn lemma_output() {
    }
}

impl TypeMul<U<6>> for U<31> {
    type Output = U<186>;
    const VALUE: usize = 186;

    proof fn lemma_output() {
    }
}

impl TypeMul<U<7>> for U<31> {
    type Output = U<217>;
    const VALUE: usize = 217;

    proof fn lemma_output() {
    }
}

impl TypeMul<U<8>> for U<31> {
    type Output = U<248>;
    const VALUE: usize = 248;

    proof fn lemma_output() {
    }
}

impl TypeMul<U<9>> for U<31> {
    type Output = U<279>;
    const VALUE: usize = 279;

    proof fn lemma_output() {
    }
}

impl TypeMul<U<10>> for U<31> {
    type Output = U<310>;
    const VALUE: usize = 310;

    proof fn lemma_output() {
    }
}

impl TypeMul<U<11>> for U<31> {
    type Output = U<341>;
    const VALUE: usize = 341;

    proof fn lemma_output() {
    }
}

impl TypeMul<U<12>> for U<31> {
    type Output = U<372>;
    const VALUE: usize = 372;

    proof fn lemma_output() {
    }
}

impl TypeMul<U<13>> for U<31> {
    type Output = U<403>;
    const VALUE: usize = 403;

    proof fn lemma_output() {
    }
}

impl TypeMul<U<14>> for U<31> {
    type Output = U<434>;
    const VALUE: usize = 434;

    proof fn lemma_output() {
    }
}

impl TypeMul<U<15>> for U<31> {
    type Output = U<465>;
    const VALUE: usize = 465;

    proof fn lemma_output() {
    }
}

impl TypeMul<U<16>> for U<31> {
    type Output = U<496>;
    const VALUE: usize = 496;

    proof fn lemma_output() {
    }
}

impl TypeMul<U<17>> for U<31> {
    type Output = U<527>;
    const VALUE: usize = 527;

    proof fn lemma_output() {
    }
}

impl TypeMul<U<18>> for U<31> {
    type Output = U<558>;
    const VALUE: usize = 558;

    proof fn lemma_output() {
    }
}

impl TypeMul<U<19>> for U<31> {
    type Output = U<589>;
    const VALUE: usize = 589;

    proof fn lemma_output() {
    }
}

impl TypeMul<U<20>> for U<31> {
    type Output = U<620>;
    const VALUE: usize = 620;

    proof fn lemma_output() {
    }
}

impl TypeMul<U<21>> for U<31> {
    type Output = U<651>;
    const VALUE: usize = 651;

    proof fn lemma_output() {
    }
}

impl TypeMul<U<22>> for U<31> {
    type Output = U<682>;
    const VALUE: usize = 682;

    proof fn lemma_output() {
    }
}

impl TypeMul<U<23>> for U<31> {
    type Output = U<713>;
    const VALUE: usize = 713;

    proof fn lemma_output() {
    }
}

impl TypeMul<U<24>> for U<31> {
    type Output = U<744>;
    const VALUE: usize = 744;

    proof fn lemma_output() {
    }
}

impl TypeMul<U<25>> for U<31> {
    type Output = U<775>;
    const VALUE: usize = 775;

    proof fn lemma_output() {
    }
}

impl TypeMul<U<26>> for U<31> {
    type Output = U<806>;
    const VALUE: usize = 806;

    proof fn lemma_output() {
    }
}

impl TypeMul<U<27>> for U<31> {
    type Output = U<837>;
    const VALUE: usize = 837;

    proof fn lemma_output() {
    }
}

impl TypeMul<U<28>> for U<31> {
    type Output = U<868>;
    const VALUE: usize = 868;

    proof fn lemma_output() {
    }
}

impl TypeMul<U<29>> for U<31> {
    type Output = U<899>;
    const VALUE: usize = 899;

    proof fn lemma_output() {
    }
}

impl TypeMul<U<30>> for U<31> {
    type Output = U<930>;
    const VALUE: usize = 930;

    proof fn lemma_output() {
    }
}

impl TypeMul<U<31>> for U<31> {
    type Output = U<961>;
    const VALUE: usize = 961;

    proof fn lemma_output() {
    }
}

impl Min<U<0>> for U<0> {
    type Output = U<0>;
    const VALUE: usize = 0;

    proof fn lemma_output() {
    }
}

impl Min<U<1>> for U<0> {
    type Output = U<0>;
    const VALUE: usize = 0;

    proof fn lemma_output() {
    }
}

impl Min<U<2>> for U<0> {
    type Output = U<0>;
    const VALUE: usize = 0;

    proof fn lemma_output() {
    }
}

impl Min<U<3>> for U<0> {
    type Output = U<0>;
    const VALUE: usize = 0;

    proof fn lemma_output() {
    }
}

impl Min<U<4>> for U<0> {
    type Output = U<0>;
    const VALUE: usize = 0;

    proof fn lemma_output() {
    }
}

impl Min<U<5>> for U<0> {
    type Output = U<0>;
    const VALUE: usize = 0;

    proof fn lemma_output() {
    }
}

impl Min<U<6>> for U<0> {
    type Output = U<0>;
    const VALUE: usize = 0;

    proof fn lemma_output() {
    }
}

impl Min<U<7>> for U<0> {
    type Output = U<0>;
    const VALUE: usize = 0;

    proof fn lemma_output() {
    }
}

impl Min<U<8>> for U<0> {
    type Output = U<0>;
    const VALUE: usize = 0;

    proof fn lemma_output() {
    }
}

impl Min<U<9>> for U<0> {
    type Output = U<0>;
    const VALUE: usize = 0;

    proof fn lemma_output() {
    }
}

impl Min<U<10>> for U<0> {
    type Output = U<0>;
    const VALUE: usize = 0;

    proof fn lemma_output() {
    }
}

impl Min<U<11>> for U<0> {
    type Output = U<0>;
    const VALUE: usize = 0;

    proof fn lemma_output() {
    }
}

impl Min<U<12>> for U<0> {
    type Output = U<0>;
    const VALUE: usize = 0;

    proof fn lemma_output() {
    }
}

impl Min<U<13>> for U<0> {
    type Output = U<0>;
    const VALUE: usize = 0;

    proof fn lemma_output() {
    }
}

impl Min<U<14>> for U<0> {
    type Output = U<0>;
    const VALUE: usize = 0;

    proof fn lemma_output() {
    }
}

impl Min<U<15>> for U<0> {
    type Output = U<0>;
    const VALUE: usize = 0;

    proof fn lemma_output() {
    }
}

impl Min<U<16>> for U<0> {
    type Output = U<0>;
    const VALUE: usize = 0;

    proof fn lemma_output() {
    }
}

impl Min<U<17>> for U<0> {
    type Output = U<0>;
    const VALUE: usize = 0;

    proof fn lemma_output() {
    }
}

impl Min<U<18>> for U<0> {
    type Output = U<0>;
    const VALUE: usize = 0;

    proof fn lemma_output() {
    }
}

impl Min<U<19>> for U<0> {
    type Output = U<0>;
    const VALUE: usize = 0;

    proof fn lemma_output() {
    }
}

impl Min<U<20>> for U<0> {
    type Output = U<0>;
    const VALUE: usize = 0;

    proof fn lemma_output() {
    }
}

impl Min<U<21>> for U<0> {
    type Output = U<0>;
    const VALUE: usize = 0;

    proof fn lemma_output() {
    }
}

impl Min<U<22>> for U<0> {
    type Output = U<0>;
    const VALUE: usize = 0;

    proof fn lemma_output() {
    }
}

impl Min<U<23>> for U<0> {
    type Output = U<0>;
    const VALUE: usize = 0;

    proof fn lemma_output() {
    }
}

impl Min<U<24>> for U<0> {
    type Output = U<0>;
    const VALUE: usize = 0;

    proof fn lemma_output() {
    }
}

impl Min<U<25>> for U<0> {
    type Output = U<0>;
    const VALUE: usize = 0;

    proof fn lemma_output() {
    }
}

impl Min<U<26>> for U<0> {
    type Output = U<0>;
    const VALUE: usize = 0;

    proof fn lemma_output() {
    }
}

impl Min<U<27>> for U<0> {
    type Output = U<0>;
    const VALUE: usize = 0;

    proof fn lemma_output() {
    }
}

impl Min<U<28>> for U<0> {
    type Output = U<0>;
    const VALUE: usize = 0;

    proof fn lemma_output() {
    }
}

impl Min<U<29>> for U<0> {
    type Output = U<0>;
    const VALUE: usize = 0;

    proof fn lemma_output() {
    }
}

impl Min<U<30>> for U<0> {
    type Output = U<0>;
    const VALUE: usize = 0;

    proof fn lemma_output() {
    }
}

impl Min<U<31>> for U<0> {
    type Output = U<0>;
    const VALUE: usize = 0;

    proof fn lemma_output() {
    }
}

impl Min<U<0>> for U<1> {
    type Output = U<0>;
    const VALUE: usize = 0;

    proof fn lemma_output() {
    }
}

impl Min<U<1>> for U<1> {
    type Output = U<1>;
    const VALUE: usize = 1;

    proof fn lemma_output() {
    }
}

impl Min<U<2>> for U<1> {
    type Output = U<1>;
    const VALUE: usize = 1;

    proof fn lemma_output() {
    }
}

impl Min<U<3>> for U<1> {
    type Output = U<1>;
    const VALUE: usize = 1;

    proof fn lemma_output() {
    }
}

impl Min<U<4>> for U<1> {
    type Output = U<1>;
    const VALUE: usize = 1;

    proof fn lemma_output() {
    }
}

impl Min<U<5>> for U<1> {
    type Output = U<1>;
    const VALUE: usize = 1;

    proof fn lemma_output() {
    }
}

impl Min<U<6>> for U<1> {
    type Output = U<1>;
    const VALUE: usize = 1;

    proof fn lemma_output() {
    }
}

impl Min<U<7>> for U<1> {
    type Output = U<1>;
    const VALUE: usize = 1;

    proof fn lemma_output() {
    }
}

impl Min<U<8>> for U<1> {
    type Output = U<1>;
    const VALUE: usize = 1;

    proof fn lemma_output() {
    }
}

impl Min<U<9>> for U<1> {
    type Output = U<1>;
    const VALUE: usize = 1;

    proof fn lemma_output() {
    }
}

impl Min<U<10>> for U<1> {
    type Output = U<1>;
    const VALUE: usize = 1;

    proof fn lemma_output() {
    }
}

impl Min<U<11>> for U<1> {
    type Output = U<1>;
    const VALUE: usize = 1;

    proof fn lemma_output() {
    }
}

impl Min<U<12>> for U<1> {
    type Output = U<1>;
    const VALUE: usize = 1;

    proof fn lemma_output() {
    }
}

impl Min<U<13>> for U<1> {
    type Output = U<1>;
    const VALUE: usize = 1;

    proof fn lemma_output() {
    }
}

impl Min<U<14>> for U<1> {
    type Output = U<1>;
    const VALUE: usize = 1;

    proof fn lemma_output() {
    }
}

impl Min<U<15>> for U<1> {
    type Output = U<1>;
    const VALUE: usize = 1;

    proof fn lemma_output() {
    }
}

impl Min<U<16>> for U<1> {
    type Output = U<1>;
    const VALUE: usize = 1;

    proof fn lemma_output() {
    }
}

impl Min<U<17>> for U<1> {
    type Output = U<1>;
    const VALUE: usize = 1;

    proof fn lemma_output() {
    }
}

impl Min<U<18>> for U<1> {
    type Output = U<1>;
    const VALUE: usize = 1;

    proof fn lemma_output() {
    }
}

impl Min<U<19>> for U<1> {
    type Output = U<1>;
    const VALUE: usize = 1;

    proof fn lemma_output() {
    }
}

impl Min<U<20>> for U<1> {
    type Output = U<1>;
    const VALUE: usize = 1;

    proof fn lemma_output() {
    }
}

impl Min<U<21>> for U<1> {
    type Output = U<1>;
    const VALUE: usize = 1;

    proof fn lemma_output() {
    }
}

impl Min<U<22>> for U<1> {
    type Output = U<1>;
    const VALUE: usize = 1;

    proof fn lemma_output() {
    }
}

impl Min<U<23>> for U<1> {
    type Output = U<1>;
    const VALUE: usize = 1;

    proof fn lemma_output() {
    }
}

impl Min<U<24>> for U<1> {
    type Output = U<1>;
    const VALUE: usize = 1;

    proof fn lemma_output() {
    }
}

impl Min<U<25>> for U<1> {
    type Output = U<1>;
    const VALUE: usize = 1;

    proof fn lemma_output() {
    }
}

impl Min<U<26>> for U<1> {
    type Output = U<1>;
    const VALUE: usize = 1;

    proof fn lemma_output() {
    }
}

impl Min<U<27>> for U<1> {
    type Output = U<1>;
    const VALUE: usize = 1;

    proof fn lemma_output() {
    }
}

impl Min<U<28>> for U<1> {
    type Output = U<1>;
    const VALUE: usize = 1;

    proof fn lemma_output() {
    }
}

impl Min<U<29>> for U<1> {
    type Output = U<1>;
    const VALUE: usize = 1;

    proof fn lemma_output() {
    }
}

impl Min<U<30>> for U<1> {
    type Output = U<1>;
    const VALUE: usize = 1;

    proof fn lemma_output() {
    }
}

impl Min<U<31>> for U<1> {
    type Output = U<1>;
    const VALUE: usize = 1;

    proof fn lemma_output() {
    }
}

impl Min<U<0>> for U<2> {
    type Output = U<0>;
    const VALUE: usize = 0;

    proof fn lemma_output() {
    }
}

impl Min<U<1>> for U<2> {
    type Output = U<1>;
    const VALUE: usize = 1;

    proof fn lemma_output() {
    }
}

impl Min<U<2>> for U<2> {
    type Output = U<2>;
    const VALUE: usize = 2;

    proof fn lemma_output() {
    }
}

impl Min<U<3>> for U<2> {
    type Output = U<2>;
    const VALUE: usize = 2;

    proof fn lemma_output() {
    }
}

impl Min<U<4>> for U<2> {
    type Output = U<2>;
    const VALUE: usize = 2;

    proof fn lemma_output() {
    }
}

impl Min<U<5>> for U<2> {
    type Output = U<2>;
    const VALUE: usize = 2;

    proof fn lemma_output() {
    }
}

impl Min<U<6>> for U<2> {
    type Output = U<2>;
    const VALUE: usize = 2;

    proof fn lemma_output() {
    }
}

impl Min<U<7>> for U<2> {
    type Output = U<2>;
    const VALUE: usize = 2;

    proof fn lemma_output() {
    }
}

impl Min<U<8>> for U<2> {
    type Output = U<2>;
    const VALUE: usize = 2;

    proof fn lemma_output() {
    }
}

impl Min<U<9>> for U<2> {
    type Output = U<2>;
    const VALUE: usize = 2;

    proof fn lemma_output() {
    }
}

impl Min<U<10>> for U<2> {
    type Output = U<2>;
    const VALUE: usize = 2;

    proof fn lemma_output() {
    }
}

impl Min<U<11>> for U<2> {
    type Output = U<2>;
    const VALUE: usize = 2;

    proof fn lemma_output() {
    }
}

impl Min<U<12>> for U<2> {
    type Output = U<2>;
    const VALUE: usize = 2;

    proof fn lemma_output() {
    }
}

impl Min<U<13>> for U<2> {
    type Output = U<2>;
    const VALUE: usize = 2;

    proof fn lemma_output() {
    }
}

impl Min<U<14>> for U<2> {
    type Output = U<2>;
    const VALUE: usize = 2;

    proof fn lemma_output() {
    }
}

impl Min<U<15>> for U<2> {
    type Output = U<2>;
    const VALUE: usize = 2;

    proof fn lemma_output() {
    }
}

impl Min<U<16>> for U<2> {
    type Output = U<2>;
    const VALUE: usize = 2;

    proof fn lemma_output() {
    }
}

impl Min<U<17>> for U<2> {
    type Output = U<2>;
    const VALUE: usize = 2;

    proof fn lemma_output() {
    }
}

impl Min<U<18>> for U<2> {
    type Output = U<2>;
    const VALUE: usize = 2;

    proof fn lemma_output() {
    }
}

impl Min<U<19>> for U<2> {
    type Output = U<2>;
    const VALUE: usize = 2;

    proof fn lemma_output() {
    }
}

impl Min<U<20>> for U<2> {
    type Output = U<2>;
    const VALUE: usize = 2;

    proof fn lemma_output() {
    }
}

impl Min<U<21>> for U<2> {
    type Output = U<2>;
    const VALUE: usize = 2;

    proof fn lemma_output() {
    }
}

impl Min<U<22>> for U<2> {
    type Output = U<2>;
    const VALUE: usize = 2;

    proof fn lemma_output() {
    }
}

impl Min<U<23>> for U<2> {
    type Output = U<2>;
    const VALUE: usize = 2;

    proof fn lemma_output() {
    }
}

impl Min<U<24>> for U<2> {
    type Output = U<2>;
    const VALUE: usize = 2;

    proof fn lemma_output() {
    }
}

impl Min<U<25>> for U<2> {
    type Output = U<2>;
    const VALUE: usize = 2;

    proof fn lemma_output() {
    }
}

impl Min<U<26>> for U<2> {
    type Output = U<2>;
    const VALUE: usize = 2;

    proof fn lemma_output() {
    }
}

impl Min<U<27>> for U<2> {
    type Output = U<2>;
    const VALUE: usize = 2;

    proof fn lemma_output() {
    }
}

impl Min<U<28>> for U<2> {
    type Output = U<2>;
    const VALUE: usize = 2;

    proof fn lemma_output() {
    }
}

impl Min<U<29>> for U<2> {
    type Output = U<2>;
    const VALUE: usize = 2;

    proof fn lemma_output() {
    }
}

impl Min<U<30>> for U<2> {
    type Output = U<2>;
    const VALUE: usize = 2;

    proof fn lemma_output() {
    }
}

impl Min<U<31>> for U<2> {
    type Output = U<2>;
    const VALUE: usize = 2;

    proof fn lemma_output() {
    }
}

impl Min<U<0>> for U<3> {
    type Output = U<0>;
    const VALUE: usize = 0;

    proof fn lemma_output() {
    }
}

impl Min<U<1>> for U<3> {
    type Output = U<1>;
    const VALUE: usize = 1;

    proof fn lemma_output() {
    }
}

impl Min<U<2>> for U<3> {
    type Output = U<2>;
    const VALUE: usize = 2;

    proof fn lemma_output() {
    }
}

impl Min<U<3>> for U<3> {
    type Output = U<3>;
    const VALUE: usize = 3;

    proof fn lemma_output() {
    }
}

impl Min<U<4>> for U<3> {
    type Output = U<3>;
    const VALUE: usize = 3;

    proof fn lemma_output() {
    }
}

impl Min<U<5>> for U<3> {
    type Output = U<3>;
    const VALUE: usize = 3;

    proof fn lemma_output() {
    }
}

impl Min<U<6>> for U<3> {
    type Output = U<3>;
    const VALUE: usize = 3;

    proof fn lemma_output() {
    }
}

impl Min<U<7>> for U<3> {
    type Output = U<3>;
    const VALUE: usize = 3;

    proof fn lemma_output() {
    }
}

impl Min<U<8>> for U<3> {
    type Output = U<3>;
    const VALUE: usize = 3;

    proof fn lemma_output() {
    }
}

impl Min<U<9>> for U<3> {
    type Output = U<3>;
    const VALUE: usize = 3;

    proof fn lemma_output() {
    }
}

impl Min<U<10>> for U<3> {
    type Output = U<3>;
    const VALUE: usize = 3;

    proof fn lemma_output() {
    }
}

impl Min<U<11>> for U<3> {
    type Output = U<3>;
    const VALUE: usize = 3;

    proof fn lemma_output() {
    }
}

impl Min<U<12>> for U<3> {
    type Output = U<3>;
    const VALUE: usize = 3;

    proof fn lemma_output() {
    }
}

impl Min<U<13>> for U<3> {
    type Output = U<3>;
    const VALUE: usize = 3;

    proof fn lemma_output() {
    }
}

impl Min<U<14>> for U<3> {
    type Output = U<3>;
    const VALUE: usize = 3;

    proof fn lemma_output() {
    }
}

impl Min<U<15>> for U<3> {
    type Output = U<3>;
    const VALUE: usize = 3;

    proof fn lemma_output() {
    }
}

impl Min<U<16>> for U<3> {
    type Output = U<3>;
    const VALUE: usize = 3;

    proof fn lemma_output() {
    }
}

impl Min<U<17>> for U<3> {
    type Output = U<3>;
    const VALUE: usize = 3;

    proof fn lemma_output() {
    }
}

impl Min<U<18>> for U<3> {
    type Output = U<3>;
    const VALUE: usize = 3;

    proof fn lemma_output() {
    }
}

impl Min<U<19>> for U<3> {
    type Output = U<3>;
    const VALUE: usize = 3;

    proof fn lemma_output() {
    }
}

impl Min<U<20>> for U<3> {
    type Output = U<3>;
    const VALUE: usize = 3;

    proof fn lemma_output() {
    }
}

impl Min<U<21>> for U<3> {
    type Output = U<3>;
    const VALUE: usize = 3;

    proof fn lemma_output() {
    }
}

impl Min<U<22>> for U<3> {
    type Output = U<3>;
    const VALUE: usize = 3;

    proof fn lemma_output() {
    }
}

impl Min<U<23>> for U<3> {
    type Output = U<3>;
    const VALUE: usize = 3;

    proof fn lemma_output() {
    }
}

impl Min<U<24>> for U<3> {
    type Output = U<3>;
    const VALUE: usize = 3;

    proof fn lemma_output() {
    }
}

impl Min<U<25>> for U<3> {
    type Output = U<3>;
    const VALUE: usize = 3;

    proof fn lemma_output() {
    }
}

impl Min<U<26>> for U<3> {
    type Output = U<3>;
    const VALUE: usize = 3;

    proof fn lemma_output() {
    }
}

impl Min<U<27>> for U<3> {
    type Output = U<3>;
    const VALUE: usize = 3;

    proof fn lemma_output() {
    }
}

impl Min<U<28>> for U<3> {
    type Output = U<3>;
    const VALUE: usize = 3;

    proof fn lemma_output() {
    }
}

impl Min<U<29>> for U<3> {
    type Output = U<3>;
    const VALUE: usize = 3;

    proof fn lemma_output() {
    }
}

impl Min<U<30>> for U<3> {
    type Output = U<3>;
    const VALUE: usize = 3;

    proof fn lemma_output() {
    }
}

impl Min<U<31>> for U<3> {
    type Output = U<3>;
    const VALUE: usize = 3;

    proof fn lemma_output() {
    }
}

impl Min<U<0>> for U<4> {
    type Output = U<0>;
    const VALUE: usize = 0;

    proof fn lemma_output() {
    }
}

impl Min<U<1>> for U<4> {
    type Output = U<1>;
    const VALUE: usize = 1;

    proof fn lemma_output() {
    }
}

impl Min<U<2>> for U<4> {
    type Output = U<2>;
    const VALUE: usize = 2;

    proof fn lemma_output() {
    }
}

impl Min<U<3>> for U<4> {
    type Output = U<3>;
    const VALUE: usize = 3;

    proof fn lemma_output() {
    }
}

impl Min<U<4>> for U<4> {
    type Output = U<4>;
    const VALUE: usize = 4;

    proof fn lemma_output() {
    }
}

impl Min<U<5>> for U<4> {
    type Output = U<4>;
    const VALUE: usize = 4;

    proof fn lemma_output() {
    }
}

impl Min<U<6>> for U<4> {
    type Output = U<4>;
    const VALUE: usize = 4;

    proof fn lemma_output() {
    }
}

impl Min<U<7>> for U<4> {
    type Output = U<4>;
    const VALUE: usize = 4;

    proof fn lemma_output() {
    }
}

impl Min<U<8>> for U<4> {
    type Output = U<4>;
    const VALUE: usize = 4;

    proof fn lemma_output() {
    }
}

impl Min<U<9>> for U<4> {
    type Output = U<4>;
    const VALUE: usize = 4;

    proof fn lemma_output() {
    }
}

impl Min<U<10>> for U<4> {
    type Output = U<4>;
    const VALUE: usize = 4;

    proof fn lemma_output() {
    }
}

impl Min<U<11>> for U<4> {
    type Output = U<4>;
    const VALUE: usize = 4;

    proof fn lemma_output() {
    }
}

impl Min<U<12>> for U<4> {
    type Output = U<4>;
    const VALUE: usize = 4;

    proof fn lemma_output() {
    }
}

impl Min<U<13>> for U<4> {
    type Output = U<4>;
    const VALUE: usize = 4;

    proof fn lemma_output() {
    }
}

impl Min<U<14>> for U<4> {
    type Output = U<4>;
    const VALUE: usize = 4;

    proof fn lemma_output() {
    }
}

impl Min<U<15>> for U<4> {
    type Output = U<4>;
    const VALUE: usize = 4;

    proof fn lemma_output() {
    }
}

impl Min<U<16>> for U<4> {
    type Output = U<4>;
    const VALUE: usize = 4;

    proof fn lemma_output() {
    }
}

impl Min<U<17>> for U<4> {
    type Output = U<4>;
    const VALUE: usize = 4;

    proof fn lemma_output() {
    }
}

impl Min<U<18>> for U<4> {
    type Output = U<4>;
    const VALUE: usize = 4;

    proof fn lemma_output() {
    }
}

impl Min<U<19>> for U<4> {
    type Output = U<4>;
    const VALUE: usize = 4;

    proof fn lemma_output() {
    }
}

impl Min<U<20>> for U<4> {
    type Output = U<4>;
    const VALUE: usize = 4;

    proof fn lemma_output() {
    }
}

impl Min<U<21>> for U<4> {
    type Output = U<4>;
    const VALUE: usize = 4;

    proof fn lemma_output() {
    }
}

impl Min<U<22>> for U<4> {
    type Output = U<4>;
    const VALUE: usize = 4;

    proof fn lemma_output() {
    }
}

impl Min<U<23>> for U<4> {
    type Output = U<4>;
    const VALUE: usize = 4;

    proof fn lemma_output() {
    }
}

impl Min<U<24>> for U<4> {
    type Output = U<4>;
    const VALUE: usize = 4;

    proof fn lemma_output() {
    }
}

impl Min<U<25>> for U<4> {
    type Output = U<4>;
    const VALUE: usize = 4;

    proof fn lemma_output() {
    }
}

impl Min<U<26>> for U<4> {
    type Output = U<4>;
    const VALUE: usize = 4;

    proof fn lemma_output() {
    }
}

impl Min<U<27>> for U<4> {
    type Output = U<4>;
    const VALUE: usize = 4;

    proof fn lemma_output() {
    }
}

impl Min<U<28>> for U<4> {
    type Output = U<4>;
    const VALUE: usize = 4;

    proof fn lemma_output() {
    }
}

impl Min<U<29>> for U<4> {
    type Output = U<4>;
    const VALUE: usize = 4;

    proof fn lemma_output() {
    }
}

impl Min<U<30>> for U<4> {
    type Output = U<4>;
    const VALUE: usize = 4;

    proof fn lemma_output() {
    }
}

impl Min<U<31>> for U<4> {
    type Output = U<4>;
    const VALUE: usize = 4;

    proof fn lemma_output() {
    }
}

impl Min<U<0>> for U<5> {
    type Output = U<0>;
    const VALUE: usize = 0;

    proof fn lemma_output() {
    }
}

impl Min<U<1>> for U<5> {
    type Output = U<1>;
    const VALUE: usize = 1;

    proof fn lemma_output() {
    }
}

impl Min<U<2>> for U<5> {
    type Output = U<2>;
    const VALUE: usize = 2;

    proof fn lemma_output() {
    }
}

impl Min<U<3>> for U<5> {
    type Output = U<3>;
    const VALUE: usize = 3;

    proof fn lemma_output() {
    }
}

impl Min<U<4>> for U<5> {
    type Output = U<4>;
    const VALUE: usize = 4;

    proof fn lemma_output() {
    }
}

impl Min<U<5>> for U<5> {
    type Output = U<5>;
    const VALUE: usize = 5;

    proof fn lemma_output() {
    }
}

impl Min<U<6>> for U<5> {
    type Output = U<5>;
    const VALUE: usize = 5;

    proof fn lemma_output() {
    }
}

impl Min<U<7>> for U<5> {
    type Output = U<5>;
    const VALUE: usize = 5;

    proof fn lemma_output() {
    }
}

impl Min<U<8>> for U<5> {
    type Output = U<5>;
    const VALUE: usize = 5;

    proof fn lemma_output() {
    }
}

impl Min<U<9>> for U<5> {
    type Output = U<5>;
    const VALUE: usize = 5;

    proof fn lemma_output() {
    }
}

impl Min<U<10>> for U<5> {
    type Output = U<5>;
    const VALUE: usize = 5;

    proof fn lemma_output() {
    }
}

impl Min<U<11>> for U<5> {
    type Output = U<5>;
    const VALUE: usize = 5;

    proof fn lemma_output() {
    }
}

impl Min<U<12>> for U<5> {
    type Output = U<5>;
    const VALUE: usize = 5;

    proof fn lemma_output() {
    }
}

impl Min<U<13>> for U<5> {
    type Output = U<5>;
    const VALUE: usize = 5;

    proof fn lemma_output() {
    }
}

impl Min<U<14>> for U<5> {
    type Output = U<5>;
    const VALUE: usize = 5;

    proof fn lemma_output() {
    }
}

impl Min<U<15>> for U<5> {
    type Output = U<5>;
    const VALUE: usize = 5;

    proof fn lemma_output() {
    }
}

impl Min<U<16>> for U<5> {
    type Output = U<5>;
    const VALUE: usize = 5;

    proof fn lemma_output() {
    }
}

impl Min<U<17>> for U<5> {
    type Output = U<5>;
    const VALUE: usize = 5;

    proof fn lemma_output() {
    }
}

impl Min<U<18>> for U<5> {
    type Output = U<5>;
    const VALUE: usize = 5;

    proof fn lemma_output() {
    }
}

impl Min<U<19>> for U<5> {
    type Output = U<5>;
    const VALUE: usize = 5;

    proof fn lemma_output() {
    }
}

impl Min<U<20>> for U<5> {
    type Output = U<5>;
    const VALUE: usize = 5;

    proof fn lemma_output() {
    }
}

impl Min<U<21>> for U<5> {
    type Output = U<5>;
    const VALUE: usize = 5;

    proof fn lemma_output() {
    }
}

impl Min<U<22>> for U<5> {
    type Output = U<5>;
    const VALUE: usize = 5;

    proof fn lemma_output() {
    }
}

impl Min<U<23>> for U<5> {
    type Output = U<5>;
    const VALUE: usize = 5;

    proof fn lemma_output() {
    }
}

impl Min<U<24>> for U<5> {
    type Output = U<5>;
    const VALUE: usize = 5;

    proof fn lemma_output() {
    }
}

impl Min<U<25>> for U<5> {
    type Output = U<5>;
    const VALUE: usize = 5;

    proof fn lemma_output() {
    }
}

impl Min<U<26>> for U<5> {
    type Output = U<5>;
    const VALUE: usize = 5;

    proof fn lemma_output() {
    }
}

impl Min<U<27>> for U<5> {
    type Output = U<5>;
    const VALUE: usize = 5;

    proof fn lemma_output() {
    }
}

impl Min<U<28>> for U<5> {
    type Output = U<5>;
    const VALUE: usize = 5;

    proof fn lemma_output() {
    }
}

impl Min<U<29>> for U<5> {
    type Output = U<5>;
    const VALUE: usize = 5;

    proof fn lemma_output() {
    }
}

impl Min<U<30>> for U<5> {
    type Output = U<5>;
    const VALUE: usize = 5;

    proof fn lemma_output() {
    }
}

impl Min<U<31>> for U<5> {
    type Output = U<5>;
    const VALUE: usize = 5;

    proof fn lemma_output() {
    }
}

impl Min<U<0>> for U<6> {
    type Output = U<0>;
    const VALUE: usize = 0;

    proof fn lemma_output() {
    }
}

impl Min<U<1>> for U<6> {
    type Output = U<1>;
    const VALUE: usize = 1;

    proof fn lemma_output() {
    }
}

impl Min<U<2>> for U<6> {
    type Output = U<2>;
    const VALUE: usize = 2;

    proof fn lemma_output() {
    }
}

impl Min<U<3>> for U<6> {
    type Output = U<3>;
    const VALUE: usize = 3;

    proof fn lemma_output() {
    }
}

impl Min<U<4>> for U<6> {
    type Output = U<4>;
    const VALUE: usize = 4;

    proof fn lemma_output() {
    }
}

impl Min<U<5>> for U<6> {
    type Output = U<5>;
    const VALUE: usize = 5;

    proof fn lemma_output() {
    }
}

impl Min<U<6>> for U<6> {
    type Output = U<6>;
    const VALUE: usize = 6;

    proof fn lemma_output() {
    }
}

impl Min<U<7>> for U<6> {
    type Output = U<6>;
    const VALUE: usize = 6;

    proof fn lemma_output() {
    }
}

impl Min<U<8>> for U<6> {
    type Output = U<6>;
    const VALUE: usize = 6;

    proof fn lemma_output() {
    }
}

impl Min<U<9>> for U<6> {
    type Output = U<6>;
    const VALUE: usize = 6;

    proof fn lemma_output() {
    }
}

impl Min<U<10>> for U<6> {
    type Output = U<6>;
    const VALUE: usize = 6;

    proof fn lemma_output() {
    }
}

impl Min<U<11>> for U<6> {
    type Output = U<6>;
    const VALUE: usize = 6;

    proof fn lemma_output() {
    }
}

impl Min<U<12>> for U<6> {
    type Output = U<6>;
    const VALUE: usize = 6;

    proof fn lemma_output() {
    }
}

impl Min<U<13>> for U<6> {
    type Output = U<6>;
    const VALUE: usize = 6;

    proof fn lemma_output() {
    }
}

impl Min<U<14>> for U<6> {
    type Output = U<6>;
    const VALUE: usize = 6;

    proof fn lemma_output() {
    }
}

impl Min<U<15>> for U<6> {
    type Output = U<6>;
    const VALUE: usize = 6;

    proof fn lemma_output() {
    }
}

impl Min<U<16>> for U<6> {
    type Output = U<6>;
    const VALUE: usize = 6;

    proof fn lemma_output() {
    }
}

impl Min<U<17>> for U<6> {
    type Output = U<6>;
    const VALUE: usize = 6;

    proof fn lemma_output() {
    }
}

impl Min<U<18>> for U<6> {
    type Output = U<6>;
    const VALUE: usize = 6;

    proof fn lemma_output() {
    }
}

impl Min<U<19>> for U<6> {
    type Output = U<6>;
    const VALUE: usize = 6;

    proof fn lemma_output() {
    }
}

impl Min<U<20>> for U<6> {
    type Output = U<6>;
    const VALUE: usize = 6;

    proof fn lemma_output() {
    }
}

impl Min<U<21>> for U<6> {
    type Output = U<6>;
    const VALUE: usize = 6;

    proof fn lemma_output() {
    }
}

impl Min<U<22>> for U<6> {
    type Output = U<6>;
    const VALUE: usize = 6;

    proof fn lemma_output() {
    }
}

impl Min<U<23>> for U<6> {
    type Output = U<6>;
    const VALUE: usize = 6;

    proof fn lemma_output() {
    }
}

impl Min<U<24>> for U<6> {
    type Output = U<6>;
    const VALUE: usize = 6;

    proof fn lemma_output() {
    }
}

impl Min<U<25>> for U<6> {
    type Output = U<6>;
    const VALUE: usize = 6;

    proof fn lemma_output() {
    }
}

impl Min<U<26>> for U<6> {
    type Output = U<6>;
    const VALUE: usize = 6;

    proof fn lemma_output() {
    }
}

impl Min<U<27>> for U<6> {
    type Output = U<6>;
    const VALUE: usize = 6;

    proof fn lemma_output() {
    }
}

impl Min<U<28>> for U<6> {
    type Output = U<6>;
    const VALUE: usize = 6;

    proof fn lemma_output() {
    }
}

impl Min<U<29>> for U<6> {
    type Output = U<6>;
    const VALUE: usize = 6;

    proof fn lemma_output() {
    }
}

impl Min<U<30>> for U<6> {
    type Output = U<6>;
    const VALUE: usize = 6;

    proof fn lemma_output() {
    }
}

impl Min<U<31>> for U<6> {
    type Output = U<6>;
    const VALUE: usize = 6;

    proof fn lemma_output() {
    }
}

impl Min<U<0>> for U<7> {
    type Output = U<0>;
    const VALUE: usize = 0;

    proof fn lemma_output() {
    }
}

impl Min<U<1>> for U<7> {
    type Output = U<1>;
    const VALUE: usize = 1;

    proof fn lemma_output() {
    }
}

impl Min<U<2>> for U<7> {
    type Output = U<2>;
    const VALUE: usize = 2;

    proof fn lemma_output() {
    }
}

impl Min<U<3>> for U<7> {
    type Output = U<3>;
    const VALUE: usize = 3;

    proof fn lemma_output() {
    }
}

impl Min<U<4>> for U<7> {
    type Output = U<4>;
    const VALUE: usize = 4;

    proof fn lemma_output() {
    }
}

impl Min<U<5>> for U<7> {
    type Output = U<5>;
    const VALUE: usize = 5;

    proof fn lemma_output() {
    }
}

impl Min<U<6>> for U<7> {
    type Output = U<6>;
    const VALUE: usize = 6;

    proof fn lemma_output() {
    }
}

impl Min<U<7>> for U<7> {
    type Output = U<7>;
    const VALUE: usize = 7;

    proof fn lemma_output() {
    }
}

impl Min<U<8>> for U<7> {
    type Output = U<7>;
    const VALUE: usize = 7;

    proof fn lemma_output() {
    }
}

impl Min<U<9>> for U<7> {
    type Output = U<7>;
    const VALUE: usize = 7;

    proof fn lemma_output() {
    }
}

impl Min<U<10>> for U<7> {
    type Output = U<7>;
    const VALUE: usize = 7;

    proof fn lemma_output() {
    }
}

impl Min<U<11>> for U<7> {
    type Output = U<7>;
    const VALUE: usize = 7;

    proof fn lemma_output() {
    }
}

impl Min<U<12>> for U<7> {
    type Output = U<7>;
    const VALUE: usize = 7;

    proof fn lemma_output() {
    }
}

impl Min<U<13>> for U<7> {
    type Output = U<7>;
    const VALUE: usize = 7;

    proof fn lemma_output() {
    }
}

impl Min<U<14>> for U<7> {
    type Output = U<7>;
    const VALUE: usize = 7;

    proof fn lemma_output() {
    }
}

impl Min<U<15>> for U<7> {
    type Output = U<7>;
    const VALUE: usize = 7;

    proof fn lemma_output() {
    }
}

impl Min<U<16>> for U<7> {
    type Output = U<7>;
    const VALUE: usize = 7;

    proof fn lemma_output() {
    }
}

impl Min<U<17>> for U<7> {
    type Output = U<7>;
    const VALUE: usize = 7;

    proof fn lemma_output() {
    }
}

impl Min<U<18>> for U<7> {
    type Output = U<7>;
    const VALUE: usize = 7;

    proof fn lemma_output() {
    }
}

impl Min<U<19>> for U<7> {
    type Output = U<7>;
    const VALUE: usize = 7;

    proof fn lemma_output() {
    }
}

impl Min<U<20>> for U<7> {
    type Output = U<7>;
    const VALUE: usize = 7;

    proof fn lemma_output() {
    }
}

impl Min<U<21>> for U<7> {
    type Output = U<7>;
    const VALUE: usize = 7;

    proof fn lemma_output() {
    }
}

impl Min<U<22>> for U<7> {
    type Output = U<7>;
    const VALUE: usize = 7;

    proof fn lemma_output() {
    }
}

impl Min<U<23>> for U<7> {
    type Output = U<7>;
    const VALUE: usize = 7;

    proof fn lemma_output() {
    }
}

impl Min<U<24>> for U<7> {
    type Output = U<7>;
    const VALUE: usize = 7;

    proof fn lemma_output() {
    }
}

impl Min<U<25>> for U<7> {
    type Output = U<7>;
    const VALUE: usize = 7;

    proof fn lemma_output() {
    }
}

impl Min<U<26>> for U<7> {
    type Output = U<7>;
    const VALUE: usize = 7;

    proof fn lemma_output() {
    }
}

impl Min<U<27>> for U<7> {
    type Output = U<7>;
    const VALUE: usize = 7;

    proof fn lemma_output() {
    }
}

impl Min<U<28>> for U<7> {
    type Output = U<7>;
    const VALUE: usize = 7;

    proof fn lemma_output() {
    }
}

impl Min<U<29>> for U<7> {
    type Output = U<7>;
    const VALUE: usize = 7;

    proof fn lemma_output() {
    }
}

impl Min<U<30>> for U<7> {
    type Output = U<7>;
    const VALUE: usize = 7;

    proof fn lemma_output() {
    }
}

impl Min<U<31>> for U<7> {
    type Output = U<7>;
    const VALUE: usize = 7;

    proof fn lemma_output() {
    }
}

impl Min<U<0>> for U<8> {
    type Output = U<0>;
    const VALUE: usize = 0;

    proof fn lemma_output() {
    }
}

impl Min<U<1>> for U<8> {
    type Output = U<1>;
    const VALUE: usize = 1;

    proof fn lemma_output() {
    }
}

impl Min<U<2>> for U<8> {
    type Output = U<2>;
    const VALUE: usize = 2;

    proof fn lemma_output() {
    }
}

impl Min<U<3>> for U<8> {
    type Output = U<3>;
    const VALUE: usize = 3;

    proof fn lemma_output() {
    }
}

impl Min<U<4>> for U<8> {
    type Output = U<4>;
    const VALUE: usize = 4;

    proof fn lemma_output() {
    }
}

impl Min<U<5>> for U<8> {
    type Output = U<5>;
    const VALUE: usize = 5;

    proof fn lemma_output() {
    }
}

impl Min<U<6>> for U<8> {
    type Output = U<6>;
    const VALUE: usize = 6;

    proof fn lemma_output() {
    }
}

impl Min<U<7>> for U<8> {
    type Output = U<7>;
    const VALUE: usize = 7;

    proof fn lemma_output() {
    }
}

impl Min<U<8>> for U<8> {
    type Output = U<8>;
    const VALUE: usize = 8;

    proof fn lemma_output() {
    }
}

impl Min<U<9>> for U<8> {
    type Output = U<8>;
    const VALUE: usize = 8;

    proof fn lemma_output() {
    }
}

impl Min<U<10>> for U<8> {
    type Output = U<8>;
    const VALUE: usize = 8;

    proof fn lemma_output() {
    }
}

impl Min<U<11>> for U<8> {
    type Output = U<8>;
    const VALUE: usize = 8;

    proof fn lemma_output() {
    }
}

impl Min<U<12>> for U<8> {
    type Output = U<8>;
    const VALUE: usize = 8;

    proof fn lemma_output() {
    }
}

impl Min<U<13>> for U<8> {
    type Output = U<8>;
    const VALUE: usize = 8;

    proof fn lemma_output() {
    }
}

impl Min<U<14>> for U<8> {
    type Output = U<8>;
    const VALUE: usize = 8;

    proof fn lemma_output() {
    }
}

impl Min<U<15>> for U<8> {
    type Output = U<8>;
    const VALUE: usize = 8;

    proof fn lemma_output() {
    }
}

impl Min<U<16>> for U<8> {
    type Output = U<8>;
    const VALUE: usize = 8;

    proof fn lemma_output() {
    }
}

impl Min<U<17>> for U<8> {
    type Output = U<8>;
    const VALUE: usize = 8;

    proof fn lemma_output() {
    }
}

impl Min<U<18>> for U<8> {
    type Output = U<8>;
    const VALUE: usize = 8;

    proof fn lemma_output() {
    }
}

impl Min<U<19>> for U<8> {
    type Output = U<8>;
    const VALUE: usize = 8;

    proof fn lemma_output() {
    }
}

impl Min<U<20>> for U<8> {
    type Output = U<8>;
    const VALUE: usize = 8;

    proof fn lemma_output() {
    }
}

impl Min<U<21>> for U<8> {
    type Output = U<8>;
    const VALUE: usize = 8;

    proof fn lemma_output() {
    }
}

impl Min<U<22>> for U<8> {
    type Output = U<8>;
    const VALUE: usize = 8;

    proof fn lemma_output() {
    }
}

impl Min<U<23>> for U<8> {
    type Output = U<8>;
    const VALUE: usize = 8;

    proof fn lemma_output() {
    }
}

impl Min<U<24>> for U<8> {
    type Output = U<8>;
    const VALUE: usize = 8;

    proof fn lemma_output() {
    }
}

impl Min<U<25>> for U<8> {
    type Output = U<8>;
    const VALUE: usize = 8;

    proof fn lemma_output() {
    }
}

impl Min<U<26>> for U<8> {
    type Output = U<8>;
    const VALUE: usize = 8;

    proof fn lemma_output() {
    }
}

impl Min<U<27>> for U<8> {
    type Output = U<8>;
    const VALUE: usize = 8;

    proof fn lemma_output() {
    }
}

impl Min<U<28>> for U<8> {
    type Output = U<8>;
    const VALUE: usize = 8;

    proof fn lemma_output() {
    }
}

impl Min<U<29>> for U<8> {
    type Output = U<8>;
    const VALUE: usize = 8;

    proof fn lemma_output() {
    }
}

impl Min<U<30>> for U<8> {
    type Output = U<8>;
    const VALUE: usize = 8;

    proof fn lemma_output() {
    }
}

impl Min<U<31>> for U<8> {
    type Output = U<8>;
    const VALUE: usize = 8;

    proof fn lemma_output() {
    }
}

impl Min<U<0>> for U<9> {
    type Output = U<0>;
    const VALUE: usize = 0;

    proof fn lemma_output() {
    }
}

impl Min<U<1>> for U<9> {
    type Output = U<1>;
    const VALUE: usize = 1;

    proof fn lemma_output() {
    }
}

impl Min<U<2>> for U<9> {
    type Output = U<2>;
    const VALUE: usize = 2;

    proof fn lemma_output() {
    }
}

impl Min<U<3>> for U<9> {
    type Output = U<3>;
    const VALUE: usize = 3;

    proof fn lemma_output() {
    }
}

impl Min<U<4>> for U<9> {
    type Output = U<4>;
    const VALUE: usize = 4;

    proof fn lemma_output() {
    }
}

impl Min<U<5>> for U<9> {
    type Output = U<5>;
    const VALUE: usize = 5;

    proof fn lemma_output() {
    }
}

impl Min<U<6>> for U<9> {
    type Output = U<6>;
    const VALUE: usize = 6;

    proof fn lemma_output() {
    }
}

impl Min<U<7>> for U<9> {
    type Output = U<7>;
    const VALUE: usize = 7;

    proof fn lemma_output() {
    }
}

impl Min<U<8>> for U<9> {
    type Output = U<8>;
    const VALUE: usize = 8;

    proof fn lemma_output() {
    }
}

impl Min<U<9>> for U<9> {
    type Output = U<9>;
    const VALUE: usize = 9;

    proof fn lemma_output() {
    }
}

impl Min<U<10>> for U<9> {
    type Output = U<9>;
    const VALUE: usize = 9;

    proof fn lemma_output() {
    }
}

impl Min<U<11>> for U<9> {
    type Output = U<9>;
    const VALUE: usize = 9;

    proof fn lemma_output() {
    }
}

impl Min<U<12>> for U<9> {
    type Output = U<9>;
    const VALUE: usize = 9;

    proof fn lemma_output() {
    }
}

impl Min<U<13>> for U<9> {
    type Output = U<9>;
    const VALUE: usize = 9;

    proof fn lemma_output() {
    }
}

impl Min<U<14>> for U<9> {
    type Output = U<9>;
    const VALUE: usize = 9;

    proof fn lemma_output() {
    }
}

impl Min<U<15>> for U<9> {
    type Output = U<9>;
    const VALUE: usize = 9;

    proof fn lemma_output() {
    }
}

impl Min<U<16>> for U<9> {
    type Output = U<9>;
    const VALUE: usize = 9;

    proof fn lemma_output() {
    }
}

impl Min<U<17>> for U<9> {
    type Output = U<9>;
    const VALUE: usize = 9;

    proof fn lemma_output() {
    }
}

impl Min<U<18>> for U<9> {
    type Output = U<9>;
    const VALUE: usize = 9;

    proof fn lemma_output() {
    }
}

impl Min<U<19>> for U<9> {
    type Output = U<9>;
    const VALUE: usize = 9;

    proof fn lemma_output() {
    }
}

impl Min<U<20>> for U<9> {
    type Output = U<9>;
    const VALUE: usize = 9;

    proof fn lemma_output() {
    }
}

impl Min<U<21>> for U<9> {
    type Output = U<9>;
    const VALUE: usize = 9;

    proof fn lemma_output() {
    }
}

impl Min<U<22>> for U<9> {
    type Output = U<9>;
    const VALUE: usize = 9;

    proof fn lemma_output() {
    }
}

impl Min<U<23>> for U<9> {
    type Output = U<9>;
    const VALUE: usize = 9;

    proof fn lemma_output() {
    }
}

impl Min<U<24>> for U<9> {
    type Output = U<9>;
    const VALUE: usize = 9;

    proof fn lemma_output() {
    }
}

impl Min<U<25>> for U<9> {
    type Output = U<9>;
    const VALUE: usize = 9;

    proof fn lemma_output() {
    }
}

impl Min<U<26>> for U<9> {
    type Output = U<9>;
    const VALUE: usize = 9;

    proof fn lemma_output() {
    }
}

impl Min<U<27>> for U<9> {
    type Output = U<9>;
    const VALUE: usize = 9;

    proof fn lemma_output() {
    }
}

impl Min<U<28>> for U<9> {
    type Output = U<9>;
    const VALUE: usize = 9;

    proof fn lemma_output() {
    }
}

impl Min<U<29>> for U<9> {
    type Output = U<9>;
    const VALUE: usize = 9;

    proof fn lemma_output() {
    }
}

impl Min<U<30>> for U<9> {
    type Output = U<9>;
    const VALUE: usize = 9;

    proof fn lemma_output() {
    }
}

impl Min<U<31>> for U<9> {
    type Output = U<9>;
    const VALUE: usize = 9;

    proof fn lemma_output() {
    }
}

impl Min<U<0>> for U<10> {
    type Output = U<0>;
    const VALUE: usize = 0;

    proof fn lemma_output() {
    }
}

impl Min<U<1>> for U<10> {
    type Output = U<1>;
    const VALUE: usize = 1;

    proof fn lemma_output() {
    }
}

impl Min<U<2>> for U<10> {
    type Output = U<2>;
    const VALUE: usize = 2;

    proof fn lemma_output() {
    }
}

impl Min<U<3>> for U<10> {
    type Output = U<3>;
    const VALUE: usize = 3;

    proof fn lemma_output() {
    }
}

impl Min<U<4>> for U<10> {
    type Output = U<4>;
    const VALUE: usize = 4;

    proof fn lemma_output() {
    }
}

impl Min<U<5>> for U<10> {
    type Output = U<5>;
    const VALUE: usize = 5;

    proof fn lemma_output() {
    }
}

impl Min<U<6>> for U<10> {
    type Output = U<6>;
    const VALUE: usize = 6;

    proof fn lemma_output() {
    }
}

impl Min<U<7>> for U<10> {
    type Output = U<7>;
    const VALUE: usize = 7;

    proof fn lemma_output() {
    }
}

impl Min<U<8>> for U<10> {
    type Output = U<8>;
    const VALUE: usize = 8;

    proof fn lemma_output() {
    }
}

impl Min<U<9>> for U<10> {
    type Output = U<9>;
    const VALUE: usize = 9;

    proof fn lemma_output() {
    }
}

impl Min<U<10>> for U<10> {
    type Output = U<10>;
    const VALUE: usize = 10;

    proof fn lemma_output() {
    }
}

impl Min<U<11>> for U<10> {
    type Output = U<10>;
    const VALUE: usize = 10;

    proof fn lemma_output() {
    }
}

impl Min<U<12>> for U<10> {
    type Output = U<10>;
    const VALUE: usize = 10;

    proof fn lemma_output() {
    }
}

impl Min<U<13>> for U<10> {
    type Output = U<10>;
    const VALUE: usize = 10;

    proof fn lemma_output() {
    }
}

impl Min<U<14>> for U<10> {
    type Output = U<10>;
    const VALUE: usize = 10;

    proof fn lemma_output() {
    }
}

impl Min<U<15>> for U<10> {
    type Output = U<10>;
    const VALUE: usize = 10;

    proof fn lemma_output() {
    }
}

impl Min<U<16>> for U<10> {
    type Output = U<10>;
    const VALUE: usize = 10;

    proof fn lemma_output() {
    }
}

impl Min<U<17>> for U<10> {
    type Output = U<10>;
    const VALUE: usize = 10;

    proof fn lemma_output() {
    }
}

impl Min<U<18>> for U<10> {
    type Output = U<10>;
    const VALUE: usize = 10;

    proof fn lemma_output() {
    }
}

impl Min<U<19>> for U<10> {
    type Output = U<10>;
    const VALUE: usize = 10;

    proof fn lemma_output() {
    }
}

impl Min<U<20>> for U<10> {
    type Output = U<10>;
    const VALUE: usize = 10;

    proof fn lemma_output() {
    }
}

impl Min<U<21>> for U<10> {
    type Output = U<10>;
    const VALUE: usize = 10;

    proof fn lemma_output() {
    }
}

impl Min<U<22>> for U<10> {
    type Output = U<10>;
    const VALUE: usize = 10;

    proof fn lemma_output() {
    }
}

impl Min<U<23>> for U<10> {
    type Output = U<10>;
    const VALUE: usize = 10;

    proof fn lemma_output() {
    }
}

impl Min<U<24>> for U<10> {
    type Output = U<10>;
    const VALUE: usize = 10;

    proof fn lemma_output() {
    }
}

impl Min<U<25>> for U<10> {
    type Output = U<10>;
    const VALUE: usize = 10;

    proof fn lemma_output() {
    }
}

impl Min<U<26>> for U<10> {
    type Output = U<10>;
    const VALUE: usize = 10;

    proof fn lemma_output() {
    }
}

impl Min<U<27>> for U<10> {
    type Output = U<10>;
    const VALUE: usize = 10;

    proof fn lemma_output() {
    }
}

impl Min<U<28>> for U<10> {
    type Output = U<10>;
    const VALUE: usize = 10;

    proof fn lemma_output() {
    }
}

impl Min<U<29>> for U<10> {
    type Output = U<10>;
    const VALUE: usize = 10;

    proof fn lemma_output() {
    }
}

impl Min<U<30>> for U<10> {
    type Output = U<10>;
    const VALUE: usize = 10;

    proof fn lemma_output() {
    }
}

impl Min<U<31>> for U<10> {
    type Output = U<10>;
    const VALUE: usize = 10;

    proof fn lemma_output() {
    }
}

impl Min<U<0>> for U<11> {
    type Output = U<0>;
    const VALUE: usize = 0;

    proof fn lemma_output() {
    }
}

impl Min<U<1>> for U<11> {
    type Output = U<1>;
    const VALUE: usize = 1;

    proof fn lemma_output() {
    }
}

impl Min<U<2>> for U<11> {
    type Output = U<2>;
    const VALUE: usize = 2;

    proof fn lemma_output() {
    }
}

impl Min<U<3>> for U<11> {
    type Output = U<3>;
    const VALUE: usize = 3;

    proof fn lemma_output() {
    }
}

impl Min<U<4>> for U<11> {
    type Output = U<4>;
    const VALUE: usize = 4;

    proof fn lemma_output() {
    }
}

impl Min<U<5>> for U<11> {
    type Output = U<5>;
    const VALUE: usize = 5;

    proof fn lemma_output() {
    }
}

impl Min<U<6>> for U<11> {
    type Output = U<6>;
    const VALUE: usize = 6;

    proof fn lemma_output() {
    }
}

impl Min<U<7>> for U<11> {
    type Output = U<7>;
    const VALUE: usize = 7;

    proof fn lemma_output() {
    }
}

impl Min<U<8>> for U<11> {
    type Output = U<8>;
    const VALUE: usize = 8;

    proof fn lemma_output() {
    }
}

impl Min<U<9>> for U<11> {
    type Output = U<9>;
    const VALUE: usize = 9;

    proof fn lemma_output() {
    }
}

impl Min<U<10>> for U<11> {
    type Output = U<10>;
    const VALUE: usize = 10;

    proof fn lemma_output() {
    }
}

impl Min<U<11>> for U<11> {
    type Output = U<11>;
    const VALUE: usize = 11;

    proof fn lemma_output() {
    }
}

impl Min<U<12>> for U<11> {
    type Output = U<11>;
    const VALUE: usize = 11;

    proof fn lemma_output() {
    }
}

impl Min<U<13>> for U<11> {
    type Output = U<11>;
    const VALUE: usize = 11;

    proof fn lemma_output() {
    }
}

impl Min<U<14>> for U<11> {
    type Output = U<11>;
    const VALUE: usize = 11;

    proof fn lemma_output() {
    }
}

impl Min<U<15>> for U<11> {
    type Output = U<11>;
    const VALUE: usize = 11;

    proof fn lemma_output() {
    }
}

impl Min<U<16>> for U<11> {
    type Output = U<11>;
    const VALUE: usize = 11;

    proof fn lemma_output() {
    }
}

impl Min<U<17>> for U<11> {
    type Output = U<11>;
    const VALUE: usize = 11;

    proof fn lemma_output() {
    }
}

impl Min<U<18>> for U<11> {
    type Output = U<11>;
    const VALUE: usize = 11;

    proof fn lemma_output() {
    }
}

impl Min<U<19>> for U<11> {
    type Output = U<11>;
    const VALUE: usize = 11;

    proof fn lemma_output() {
    }
}

impl Min<U<20>> for U<11> {
    type Output = U<11>;
    const VALUE: usize = 11;

    proof fn lemma_output() {
    }
}

impl Min<U<21>> for U<11> {
    type Output = U<11>;
    const VALUE: usize = 11;

    proof fn lemma_output() {
    }
}

impl Min<U<22>> for U<11> {
    type Output = U<11>;
    const VALUE: usize = 11;

    proof fn lemma_output() {
    }
}

impl Min<U<23>> for U<11> {
    type Output = U<11>;
    const VALUE: usize = 11;

    proof fn lemma_output() {
    }
}

impl Min<U<24>> for U<11> {
    type Output = U<11>;
    const VALUE: usize = 11;

    proof fn lemma_output() {
    }
}

impl Min<U<25>> for U<11> {
    type Output = U<11>;
    const VALUE: usize = 11;

    proof fn lemma_output() {
    }
}

impl Min<U<26>> for U<11> {
    type Output = U<11>;
    const VALUE: usize = 11;

    proof fn lemma_output() {
    }
}

impl Min<U<27>> for U<11> {
    type Output = U<11>;
    const VALUE: usize = 11;

    proof fn lemma_output() {
    }
}

impl Min<U<28>> for U<11> {
    type Output = U<11>;
    const VALUE: usize = 11;

    proof fn lemma_output() {
    }
}

impl Min<U<29>> for U<11> {
    type Output = U<11>;
    const VALUE: usize = 11;

    proof fn lemma_output() {
    }
}

impl Min<U<30>> for U<11> {
    type Output = U<11>;
    const VALUE: usize = 11;

    proof fn lemma_output() {
    }
}

impl Min<U<31>> for U<11> {
    type Output = U<11>;
    const VALUE: usize = 11;

    proof fn lemma_output() {
    }
}

impl Min<U<0>> for U<12> {
    type Output = U<0>;
    const VALUE: usize = 0;

    proof fn lemma_output() {
    }
}

impl Min<U<1>> for U<12> {
    type Output = U<1>;
    const VALUE: usize = 1;

    proof fn lemma_output() {
    }
}

impl Min<U<2>> for U<12> {
    type Output = U<2>;
    const VALUE: usize = 2;

    proof fn lemma_output() {
    }
}

impl Min<U<3>> for U<12> {
    type Output = U<3>;
    const VALUE: usize = 3;

    proof fn lemma_output() {
    }
}

impl Min<U<4>> for U<12> {
    type Output = U<4>;
    const VALUE: usize = 4;

    proof fn lemma_output() {
    }
}

impl Min<U<5>> for U<12> {
    type Output = U<5>;
    const VALUE: usize = 5;

    proof fn lemma_output() {
    }
}

impl Min<U<6>> for U<12> {
    type Output = U<6>;
    const VALUE: usize = 6;

    proof fn lemma_output() {
    }
}

impl Min<U<7>> for U<12> {
    type Output = U<7>;
    const VALUE: usize = 7;

    proof fn lemma_output() {
    }
}

impl Min<U<8>> for U<12> {
    type Output = U<8>;
    const VALUE: usize = 8;

    proof fn lemma_output() {
    }
}

impl Min<U<9>> for U<12> {
    type Output = U<9>;
    const VALUE: usize = 9;

    proof fn lemma_output() {
    }
}

impl Min<U<10>> for U<12> {
    type Output = U<10>;
    const VALUE: usize = 10;

    proof fn lemma_output() {
    }
}

impl Min<U<11>> for U<12> {
    type Output = U<11>;
    const VALUE: usize = 11;

    proof fn lemma_output() {
    }
}

impl Min<U<12>> for U<12> {
    type Output = U<12>;
    const VALUE: usize = 12;

    proof fn lemma_output() {
    }
}

impl Min<U<13>> for U<12> {
    type Output = U<12>;
    const VALUE: usize = 12;

    proof fn lemma_output() {
    }
}

impl Min<U<14>> for U<12> {
    type Output = U<12>;
    const VALUE: usize = 12;

    proof fn lemma_output() {
    }
}

impl Min<U<15>> for U<12> {
    type Output = U<12>;
    const VALUE: usize = 12;

    proof fn lemma_output() {
    }
}

impl Min<U<16>> for U<12> {
    type Output = U<12>;
    const VALUE: usize = 12;

    proof fn lemma_output() {
    }
}

impl Min<U<17>> for U<12> {
    type Output = U<12>;
    const VALUE: usize = 12;

    proof fn lemma_output() {
    }
}

impl Min<U<18>> for U<12> {
    type Output = U<12>;
    const VALUE: usize = 12;

    proof fn lemma_output() {
    }
}

impl Min<U<19>> for U<12> {
    type Output = U<12>;
    const VALUE: usize = 12;

    proof fn lemma_output() {
    }
}

impl Min<U<20>> for U<12> {
    type Output = U<12>;
    const VALUE: usize = 12;

    proof fn lemma_output() {
    }
}

impl Min<U<21>> for U<12> {
    type Output = U<12>;
    const VALUE: usize = 12;

    proof fn lemma_output() {
    }
}

impl Min<U<22>> for U<12> {
    type Output = U<12>;
    const VALUE: usize = 12;

    proof fn lemma_output() {
    }
}

impl Min<U<23>> for U<12> {
    type Output = U<12>;
    const VALUE: usize = 12;

    proof fn lemma_output() {
    }
}

impl Min<U<24>> for U<12> {
    type Output = U<12>;
    const VALUE: usize = 12;

    proof fn lemma_output() {
    }
}

impl Min<U<25>> for U<12> {
    type Output = U<12>;
    const VALUE: usize = 12;

    proof fn lemma_output() {
    }
}

impl Min<U<26>> for U<12> {
    type Output = U<12>;
    const VALUE: usize = 12;

    proof fn lemma_output() {
    }
}

impl Min<U<27>> for U<12> {
    type Output = U<12>;
    const VALUE: usize = 12;

    proof fn lemma_output() {
    }
}

impl Min<U<28>> for U<12> {
    type Output = U<12>;
    const VALUE: usize = 12;

    proof fn lemma_output() {
    }
}

impl Min<U<29>> for U<12> {
    type Output = U<12>;
    const VALUE: usize = 12;

    proof fn lemma_output() {
    }
}

impl Min<U<30>> for U<12> {
    type Output = U<12>;
    const VALUE: usize = 12;

    proof fn lemma_output() {
    }
}

impl Min<U<31>> for U<12> {
    type Output = U<12>;
    const VALUE: usize = 12;

    proof fn lemma_output() {
    }
}

impl Min<U<0>> for U<13> {
    type Output = U<0>;
    const VALUE: usize = 0;

    proof fn lemma_output() {
    }
}

impl Min<U<1>> for U<13> {
    type Output = U<1>;
    const VALUE: usize = 1;

    proof fn lemma_output() {
    }
}

impl Min<U<2>> for U<13> {
    type Output = U<2>;
    const VALUE: usize = 2;

    proof fn lemma_output() {
    }
}

impl Min<U<3>> for U<13> {
    type Output = U<3>;
    const VALUE: usize = 3;

    proof fn lemma_output() {
    }
}

impl Min<U<4>> for U<13> {
    type Output = U<4>;
    const VALUE: usize = 4;

    proof fn lemma_output() {
    }
}

impl Min<U<5>> for U<13> {
    type Output = U<5>;
    const VALUE: usize = 5;

    proof fn lemma_output() {
    }
}

impl Min<U<6>> for U<13> {
    type Output = U<6>;
    const VALUE: usize = 6;

    proof fn lemma_output() {
    }
}

impl Min<U<7>> for U<13> {
    type Output = U<7>;
    const VALUE: usize = 7;

    proof fn lemma_output() {
    }
}

impl Min<U<8>> for U<13> {
    type Output = U<8>;
    const VALUE: usize = 8;

    proof fn lemma_output() {
    }
}

impl Min<U<9>> for U<13> {
    type Output = U<9>;
    const VALUE: usize = 9;

    proof fn lemma_output() {
    }
}

impl Min<U<10>> for U<13> {
    type Output = U<10>;
    const VALUE: usize = 10;

    proof fn lemma_output() {
    }
}

impl Min<U<11>> for U<13> {
    type Output = U<11>;
    const VALUE: usize = 11;

    proof fn lemma_output() {
    }
}

impl Min<U<12>> for U<13> {
    type Output = U<12>;
    const VALUE: usize = 12;

    proof fn lemma_output() {
    }
}

impl Min<U<13>> for U<13> {
    type Output = U<13>;
    const VALUE: usize = 13;

    proof fn lemma_output() {
    }
}

impl Min<U<14>> for U<13> {
    type Output = U<13>;
    const VALUE: usize = 13;

    proof fn lemma_output() {
    }
}

impl Min<U<15>> for U<13> {
    type Output = U<13>;
    const VALUE: usize = 13;

    proof fn lemma_output() {
    }
}

impl Min<U<16>> for U<13> {
    type Output = U<13>;
    const VALUE: usize = 13;

    proof fn lemma_output() {
    }
}

impl Min<U<17>> for U<13> {
    type Output = U<13>;
    const VALUE: usize = 13;

    proof fn lemma_output() {
    }
}

impl Min<U<18>> for U<13> {
    type Output = U<13>;
    const VALUE: usize = 13;

    proof fn lemma_output() {
    }
}

impl Min<U<19>> for U<13> {
    type Output = U<13>;
    const VALUE: usize = 13;

    proof fn lemma_output() {
    }
}

impl Min<U<20>> for U<13> {
    type Output = U<13>;
    const VALUE: usize = 13;

    proof fn lemma_output() {
    }
}

impl Min<U<21>> for U<13> {
    type Output = U<13>;
    const VALUE: usize = 13;

    proof fn lemma_output() {
    }
}

impl Min<U<22>> for U<13> {
    type Output = U<13>;
    const VALUE: usize = 13;

    proof fn lemma_output() {
    }
}

impl Min<U<23>> for U<13> {
    type Output = U<13>;
    const VALUE: usize = 13;

    proof fn lemma_output() {
    }
}

impl Min<U<24>> for U<13> {
    type Output = U<13>;
    const VALUE: usize = 13;

    proof fn lemma_output() {
    }
}

impl Min<U<25>> for U<13> {
    type Output = U<13>;
    const VALUE: usize = 13;

    proof fn lemma_output() {
    }
}

impl Min<U<26>> for U<13> {
    type Output = U<13>;
    const VALUE: usize = 13;

    proof fn lemma_output() {
    }
}

impl Min<U<27>> for U<13> {
    type Output = U<13>;
    const VALUE: usize = 13;

    proof fn lemma_output() {
    }
}

impl Min<U<28>> for U<13> {
    type Output = U<13>;
    const VALUE: usize = 13;

    proof fn lemma_output() {
    }
}

impl Min<U<29>> for U<13> {
    type Output = U<13>;
    const VALUE: usize = 13;

    proof fn lemma_output() {
    }
}

impl Min<U<30>> for U<13> {
    type Output = U<13>;
    const VALUE: usize = 13;

    proof fn lemma_output() {
    }
}

impl Min<U<31>> for U<13> {
    type Output = U<13>;
    const VALUE: usize = 13;

    proof fn lemma_output() {
    }
}

impl Min<U<0>> for U<14> {
    type Output = U<0>;
    const VALUE: usize = 0;

    proof fn lemma_output() {
    }
}

impl Min<U<1>> for U<14> {
    type Output = U<1>;
    const VALUE: usize = 1;

    proof fn lemma_output() {
    }
}

impl Min<U<2>> for U<14> {
    type Output = U<2>;
    const VALUE: usize = 2;

    proof fn lemma_output() {
    }
}

impl Min<U<3>> for U<14> {
    type Output = U<3>;
    const VALUE: usize = 3;

    proof fn lemma_output() {
    }
}

impl Min<U<4>> for U<14> {
    type Output = U<4>;
    const VALUE: usize = 4;

    proof fn lemma_output() {
    }
}

impl Min<U<5>> for U<14> {
    type Output = U<5>;
    const VALUE: usize = 5;

    proof fn lemma_output() {
    }
}

impl Min<U<6>> for U<14> {
    type Output = U<6>;
    const VALUE: usize = 6;

    proof fn lemma_output() {
    }
}

impl Min<U<7>> for U<14> {
    type Output = U<7>;
    const VALUE: usize = 7;

    proof fn lemma_output() {
    }
}

impl Min<U<8>> for U<14> {
    type Output = U<8>;
    const VALUE: usize = 8;

    proof fn lemma_output() {
    }
}

impl Min<U<9>> for U<14> {
    type Output = U<9>;
    const VALUE: usize = 9;

    proof fn lemma_output() {
    }
}

impl Min<U<10>> for U<14> {
    type Output = U<10>;
    const VALUE: usize = 10;

    proof fn lemma_output() {
    }
}

impl Min<U<11>> for U<14> {
    type Output = U<11>;
    const VALUE: usize = 11;

    proof fn lemma_output() {
    }
}

impl Min<U<12>> for U<14> {
    type Output = U<12>;
    const VALUE: usize = 12;

    proof fn lemma_output() {
    }
}

impl Min<U<13>> for U<14> {
    type Output = U<13>;
    const VALUE: usize = 13;

    proof fn lemma_output() {
    }
}

impl Min<U<14>> for U<14> {
    type Output = U<14>;
    const VALUE: usize = 14;

    proof fn lemma_output() {
    }
}

impl Min<U<15>> for U<14> {
    type Output = U<14>;
    const VALUE: usize = 14;

    proof fn lemma_output() {
    }
}

impl Min<U<16>> for U<14> {
    type Output = U<14>;
    const VALUE: usize = 14;

    proof fn lemma_output() {
    }
}

impl Min<U<17>> for U<14> {
    type Output = U<14>;
    const VALUE: usize = 14;

    proof fn lemma_output() {
    }
}

impl Min<U<18>> for U<14> {
    type Output = U<14>;
    const VALUE: usize = 14;

    proof fn lemma_output() {
    }
}

impl Min<U<19>> for U<14> {
    type Output = U<14>;
    const VALUE: usize = 14;

    proof fn lemma_output() {
    }
}

impl Min<U<20>> for U<14> {
    type Output = U<14>;
    const VALUE: usize = 14;

    proof fn lemma_output() {
    }
}

impl Min<U<21>> for U<14> {
    type Output = U<14>;
    const VALUE: usize = 14;

    proof fn lemma_output() {
    }
}

impl Min<U<22>> for U<14> {
    type Output = U<14>;
    const VALUE: usize = 14;

    proof fn lemma_output() {
    }
}

impl Min<U<23>> for U<14> {
    type Output = U<14>;
    const VALUE: usize = 14;

    proof fn lemma_output() {
    }
}

impl Min<U<24>> for U<14> {
    type Output = U<14>;
    const VALUE: usize = 14;

    proof fn lemma_output() {
    }
}

impl Min<U<25>> for U<14> {
    type Output = U<14>;
    const VALUE: usize = 14;

    proof fn lemma_output() {
    }
}

impl Min<U<26>> for U<14> {
    type Output = U<14>;
    const VALUE: usize = 14;

    proof fn lemma_output() {
    }
}

impl Min<U<27>> for U<14> {
    type Output = U<14>;
    const VALUE: usize = 14;

    proof fn lemma_output() {
    }
}

impl Min<U<28>> for U<14> {
    type Output = U<14>;
    const VALUE: usize = 14;

    proof fn lemma_output() {
    }
}

impl Min<U<29>> for U<14> {
    type Output = U<14>;
    const VALUE: usize = 14;

    proof fn lemma_output() {
    }
}

impl Min<U<30>> for U<14> {
    type Output = U<14>;
    const VALUE: usize = 14;

    proof fn lemma_output() {
    }
}

impl Min<U<31>> for U<14> {
    type Output = U<14>;
    const VALUE: usize = 14;

    proof fn lemma_output() {
    }
}

impl Min<U<0>> for U<15> {
    type Output = U<0>;
    const VALUE: usize = 0;

    proof fn lemma_output() {
    }
}

impl Min<U<1>> for U<15> {
    type Output = U<1>;
    const VALUE: usize = 1;

    proof fn lemma_output() {
    }
}

impl Min<U<2>> for U<15> {
    type Output = U<2>;
    const VALUE: usize = 2;

    proof fn lemma_output() {
    }
}

impl Min<U<3>> for U<15> {
    type Output = U<3>;
    const VALUE: usize = 3;

    proof fn lemma_output() {
    }
}

impl Min<U<4>> for U<15> {
    type Output = U<4>;
    const VALUE: usize = 4;

    proof fn lemma_output() {
    }
}

impl Min<U<5>> for U<15> {
    type Output = U<5>;
    const VALUE: usize = 5;

    proof fn lemma_output() {
    }
}

impl Min<U<6>> for U<15> {
    type Output = U<6>;
    const VALUE: usize = 6;

    proof fn lemma_output() {
    }
}

impl Min<U<7>> for U<15> {
    type Output = U<7>;
    const VALUE: usize = 7;

    proof fn lemma_output() {
    }
}

impl Min<U<8>> for U<15> {
    type Output = U<8>;
    const VALUE: usize = 8;

    proof fn lemma_output() {
    }
}

impl Min<U<9>> for U<15> {
    type Output = U<9>;
    const VALUE: usize = 9;

    proof fn lemma_output() {
    }
}

impl Min<U<10>> for U<15> {
    type Output = U<10>;
    const VALUE: usize = 10;

    proof fn lemma_output() {
    }
}

impl Min<U<11>> for U<15> {
    type Output = U<11>;
    const VALUE: usize = 11;

    proof fn lemma_output() {
    }
}

impl Min<U<12>> for U<15> {
    type Output = U<12>;
    const VALUE: usize = 12;

    proof fn lemma_output() {
    }
}

impl Min<U<13>> for U<15> {
    type Output = U<13>;
    const VALUE: usize = 13;

    proof fn lemma_output() {
    }
}

impl Min<U<14>> for U<15> {
    type Output = U<14>;
    const VALUE: usize = 14;

    proof fn lemma_output() {
    }
}

impl Min<U<15>> for U<15> {
    type Output = U<15>;
    const VALUE: usize = 15;

    proof fn lemma_output() {
    }
}

impl Min<U<16>> for U<15> {
    type Output = U<15>;
    const VALUE: usize = 15;

    proof fn lemma_output() {
    }
}

impl Min<U<17>> for U<15> {
    type Output = U<15>;
    const VALUE: usize = 15;

    proof fn lemma_output() {
    }
}

impl Min<U<18>> for U<15> {
    type Output = U<15>;
    const VALUE: usize = 15;

    proof fn lemma_output() {
    }
}

impl Min<U<19>> for U<15> {
    type Output = U<15>;
    const VALUE: usize = 15;

    proof fn lemma_output() {
    }
}

impl Min<U<20>> for U<15> {
    type Output = U<15>;
    const VALUE: usize = 15;

    proof fn lemma_output() {
    }
}

impl Min<U<21>> for U<15> {
    type Output = U<15>;
    const VALUE: usize = 15;

    proof fn lemma_output() {
    }
}

impl Min<U<22>> for U<15> {
    type Output = U<15>;
    const VALUE: usize = 15;

    proof fn lemma_output() {
    }
}

impl Min<U<23>> for U<15> {
    type Output = U<15>;
    const VALUE: usize = 15;

    proof fn lemma_output() {
    }
}

impl Min<U<24>> for U<15> {
    type Output = U<15>;
    const VALUE: usize = 15;

    proof fn lemma_output() {
    }
}

impl Min<U<25>> for U<15> {
    type Output = U<15>;
    const VALUE: usize = 15;

    proof fn lemma_output() {
    }
}

impl Min<U<26>> for U<15> {
    type Output = U<15>;
    const VALUE: usize = 15;

    proof fn lemma_output() {
    }
}

impl Min<U<27>> for U<15> {
    type Output = U<15>;
    const VALUE: usize = 15;

    proof fn lemma_output() {
    }
}

impl Min<U<28>> for U<15> {
    type Output = U<15>;
    const VALUE: usize = 15;

    proof fn lemma_output() {
    }
}

impl Min<U<29>> for U<15> {
    type Output = U<15>;
    const VALUE: usize = 15;

    proof fn lemma_output() {
    }
}

impl Min<U<30>> for U<15> {
    type Output = U<15>;
    const VALUE: usize = 15;

    proof fn lemma_output() {
    }
}

impl Min<U<31>> for U<15> {
    type Output = U<15>;
    const VALUE: usize = 15;

    proof fn lemma_output() {
    }
}

impl Min<U<0>> for U<16> {
    type Output = U<0>;
    const VALUE: usize = 0;

    proof fn lemma_output() {
    }
}

impl Min<U<1>> for U<16> {
    type Output = U<1>;
    const VALUE: usize = 1;

    proof fn lemma_output() {
    }
}

impl Min<U<2>> for U<16> {
    type Output = U<2>;
    const VALUE: usize = 2;

    proof fn lemma_output() {
    }
}

impl Min<U<3>> for U<16> {
    type Output = U<3>;
    const VALUE: usize = 3;

    proof fn lemma_output() {
    }
}

impl Min<U<4>> for U<16> {
    type Output = U<4>;
    const VALUE: usize = 4;

    proof fn lemma_output() {
    }
}

impl Min<U<5>> for U<16> {
    type Output = U<5>;
    const VALUE: usize = 5;

    proof fn lemma_output() {
    }
}

impl Min<U<6>> for U<16> {
    type Output = U<6>;
    const VALUE: usize = 6;

    proof fn lemma_output() {
    }
}

impl Min<U<7>> for U<16> {
    type Output = U<7>;
    const VALUE: usize = 7;

    proof fn lemma_output() {
    }
}

impl Min<U<8>> for U<16> {
    type Output = U<8>;
    const VALUE: usize = 8;

    proof fn lemma_output() {
    }
}

impl Min<U<9>> for U<16> {
    type Output = U<9>;
    const VALUE: usize = 9;

    proof fn lemma_output() {
    }
}

impl Min<U<10>> for U<16> {
    type Output = U<10>;
    const VALUE: usize = 10;

    proof fn lemma_output() {
    }
}

impl Min<U<11>> for U<16> {
    type Output = U<11>;
    const VALUE: usize = 11;

    proof fn lemma_output() {
    }
}

impl Min<U<12>> for U<16> {
    type Output = U<12>;
    const VALUE: usize = 12;

    proof fn lemma_output() {
    }
}

impl Min<U<13>> for U<16> {
    type Output = U<13>;
    const VALUE: usize = 13;

    proof fn lemma_output() {
    }
}

impl Min<U<14>> for U<16> {
    type Output = U<14>;
    const VALUE: usize = 14;

    proof fn lemma_output() {
    }
}

impl Min<U<15>> for U<16> {
    type Output = U<15>;
    const VALUE: usize = 15;

    proof fn lemma_output() {
    }
}

impl Min<U<16>> for U<16> {
    type Output = U<16>;
    const VALUE: usize = 16;

    proof fn lemma_output() {
    }
}

impl Min<U<17>> for U<16> {
    type Output = U<16>;
    const VALUE: usize = 16;

    proof fn lemma_output() {
    }
}

impl Min<U<18>> for U<16> {
    type Output = U<16>;
    const VALUE: usize = 16;

    proof fn lemma_output() {
    }
}

impl Min<U<19>> for U<16> {
    type Output = U<16>;
    const VALUE: usize = 16;

    proof fn lemma_output() {
    }
}

impl Min<U<20>> for U<16> {
    type Output = U<16>;
    const VALUE: usize = 16;

    proof fn lemma_output() {
    }
}

impl Min<U<21>> for U<16> {
    type Output = U<16>;
    const VALUE: usize = 16;

    proof fn lemma_output() {
    }
}

impl Min<U<22>> for U<16> {
    type Output = U<16>;
    const VALUE: usize = 16;

    proof fn lemma_output() {
    }
}

impl Min<U<23>> for U<16> {
    type Output = U<16>;
    const VALUE: usize = 16;

    proof fn lemma_output() {
    }
}

impl Min<U<24>> for U<16> {
    type Output = U<16>;
    const VALUE: usize = 16;

    proof fn lemma_output() {
    }
}

impl Min<U<25>> for U<16> {
    type Output = U<16>;
    const VALUE: usize = 16;

    proof fn lemma_output() {
    }
}

impl Min<U<26>> for U<16> {
    type Output = U<16>;
    const VALUE: usize = 16;

    proof fn lemma_output() {
    }
}

impl Min<U<27>> for U<16> {
    type Output = U<16>;
    const VALUE: usize = 16;

    proof fn lemma_output() {
    }
}

impl Min<U<28>> for U<16> {
    type Output = U<16>;
    const VALUE: usize = 16;

    proof fn lemma_output() {
    }
}

impl Min<U<29>> for U<16> {
    type Output = U<16>;
    const VALUE: usize = 16;

    proof fn lemma_output() {
    }
}

impl Min<U<30>> for U<16> {
    type Output = U<16>;
    const VALUE: usize = 16;

    proof fn lemma_output() {
    }
}

impl Min<U<31>> for U<16> {
    type Output = U<16>;
    const VALUE: usize = 16;

    proof fn lemma_output() {
    }
}

impl Min<U<0>> for U<17> {
    type Output = U<0>;
    const VALUE: usize = 0;

    proof fn lemma_output() {
    }
}

impl Min<U<1>> for U<17> {
    type Output = U<1>;
    const VALUE: usize = 1;

    proof fn lemma_output() {
    }
}

impl Min<U<2>> for U<17> {
    type Output = U<2>;
    const VALUE: usize = 2;

    proof fn lemma_output() {
    }
}

impl Min<U<3>> for U<17> {
    type Output = U<3>;
    const VALUE: usize = 3;

    proof fn lemma_output() {
    }
}

impl Min<U<4>> for U<17> {
    type Output = U<4>;
    const VALUE: usize = 4;

    proof fn lemma_output() {
    }
}

impl Min<U<5>> for U<17> {
    type Output = U<5>;
    const VALUE: usize = 5;

    proof fn lemma_output() {
    }
}

impl Min<U<6>> for U<17> {
    type Output = U<6>;
    const VALUE: usize = 6;

    proof fn lemma_output() {
    }
}

impl Min<U<7>> for U<17> {
    type Output = U<7>;
    const VALUE: usize = 7;

    proof fn lemma_output() {
    }
}

impl Min<U<8>> for U<17> {
    type Output = U<8>;
    const VALUE: usize = 8;

    proof fn lemma_output() {
    }
}

impl Min<U<9>> for U<17> {
    type Output = U<9>;
    const VALUE: usize = 9;

    proof fn lemma_output() {
    }
}

impl Min<U<10>> for U<17> {
    type Output = U<10>;
    const VALUE: usize = 10;

    proof fn lemma_output() {
    }
}

impl Min<U<11>> for U<17> {
    type Output = U<11>;
    const VALUE: usize = 11;

    proof fn lemma_output() {
    }
}

impl Min<U<12>> for U<17> {
    type Output = U<12>;
    const VALUE: usize = 12;

    proof fn lemma_output() {
    }
}

impl Min<U<13>> for U<17> {
    type Output = U<13>;
    const VALUE: usize = 13;

    proof fn lemma_output() {
    }
}

impl Min<U<14>> for U<17> {
    type Output = U<14>;
    const VALUE: usize = 14;

    proof fn lemma_output() {
    }
}

impl Min<U<15>> for U<17> {
    type Output = U<15>;
    const VALUE: usize = 15;

    proof fn lemma_output() {
    }
}

impl Min<U<16>> for U<17> {
    type Output = U<16>;
    const VALUE: usize = 16;

    proof fn lemma_output() {
    }
}

impl Min<U<17>> for U<17> {
    type Output = U<17>;
    const VALUE: usize = 17;

    proof fn lemma_output() {
    }
}

impl Min<U<18>> for U<17> {
    type Output = U<17>;
    const VALUE: usize = 17;

    proof fn lemma_output() {
    }
}

impl Min<U<19>> for U<17> {
    type Output = U<17>;
    const VALUE: usize = 17;

    proof fn lemma_output() {
    }
}

impl Min<U<20>> for U<17> {
    type Output = U<17>;
    const VALUE: usize = 17;

    proof fn lemma_output() {
    }
}

impl Min<U<21>> for U<17> {
    type Output = U<17>;
    const VALUE: usize = 17;

    proof fn lemma_output() {
    }
}

impl Min<U<22>> for U<17> {
    type Output = U<17>;
    const VALUE: usize = 17;

    proof fn lemma_output() {
    }
}

impl Min<U<23>> for U<17> {
    type Output = U<17>;
    const VALUE: usize = 17;

    proof fn lemma_output() {
    }
}

impl Min<U<24>> for U<17> {
    type Output = U<17>;
    const VALUE: usize = 17;

    proof fn lemma_output() {
    }
}

impl Min<U<25>> for U<17> {
    type Output = U<17>;
    const VALUE: usize = 17;

    proof fn lemma_output() {
    }
}

impl Min<U<26>> for U<17> {
    type Output = U<17>;
    const VALUE: usize = 17;

    proof fn lemma_output() {
    }
}

impl Min<U<27>> for U<17> {
    type Output = U<17>;
    const VALUE: usize = 17;

    proof fn lemma_output() {
    }
}

impl Min<U<28>> for U<17> {
    type Output = U<17>;
    const VALUE: usize = 17;

    proof fn lemma_output() {
    }
}

impl Min<U<29>> for U<17> {
    type Output = U<17>;
    const VALUE: usize = 17;

    proof fn lemma_output() {
    }
}

impl Min<U<30>> for U<17> {
    type Output = U<17>;
    const VALUE: usize = 17;

    proof fn lemma_output() {
    }
}

impl Min<U<31>> for U<17> {
    type Output = U<17>;
    const VALUE: usize = 17;

    proof fn lemma_output() {
    }
}

impl Min<U<0>> for U<18> {
    type Output = U<0>;
    const VALUE: usize = 0;

    proof fn lemma_output() {
    }
}

impl Min<U<1>> for U<18> {
    type Output = U<1>;
    const VALUE: usize = 1;

    proof fn lemma_output() {
    }
}

impl Min<U<2>> for U<18> {
    type Output = U<2>;
    const VALUE: usize = 2;

    proof fn lemma_output() {
    }
}

impl Min<U<3>> for U<18> {
    type Output = U<3>;
    const VALUE: usize = 3;

    proof fn lemma_output() {
    }
}

impl Min<U<4>> for U<18> {
    type Output = U<4>;
    const VALUE: usize = 4;

    proof fn lemma_output() {
    }
}

impl Min<U<5>> for U<18> {
    type Output = U<5>;
    const VALUE: usize = 5;

    proof fn lemma_output() {
    }
}

impl Min<U<6>> for U<18> {
    type Output = U<6>;
    const VALUE: usize = 6;

    proof fn lemma_output() {
    }
}

impl Min<U<7>> for U<18> {
    type Output = U<7>;
    const VALUE: usize = 7;

    proof fn lemma_output() {
    }
}

impl Min<U<8>> for U<18> {
    type Output = U<8>;
    const VALUE: usize = 8;

    proof fn lemma_output() {
    }
}

impl Min<U<9>> for U<18> {
    type Output = U<9>;
    const VALUE: usize = 9;

    proof fn lemma_output() {
    }
}

impl Min<U<10>> for U<18> {
    type Output = U<10>;
    const VALUE: usize = 10;

    proof fn lemma_output() {
    }
}

impl Min<U<11>> for U<18> {
    type Output = U<11>;
    const VALUE: usize = 11;

    proof fn lemma_output() {
    }
}

impl Min<U<12>> for U<18> {
    type Output = U<12>;
    const VALUE: usize = 12;

    proof fn lemma_output() {
    }
}

impl Min<U<13>> for U<18> {
    type Output = U<13>;
    const VALUE: usize = 13;

    proof fn lemma_output() {
    }
}

impl Min<U<14>> for U<18> {
    type Output = U<14>;
    const VALUE: usize = 14;

    proof fn lemma_output() {
    }
}

impl Min<U<15>> for U<18> {
    type Output = U<15>;
    const VALUE: usize = 15;

    proof fn lemma_output() {
    }
}

impl Min<U<16>> for U<18> {
    type Output = U<16>;
    const VALUE: usize = 16;

    proof fn lemma_output() {
    }
}

impl Min<U<17>> for U<18> {
    type Output = U<17>;
    const VALUE: usize = 17;

    proof fn lemma_output() {
    }
}

impl Min<U<18>> for U<18> {
    type Output = U<18>;
    const VALUE: usize = 18;

    proof fn lemma_output() {
    }
}

impl Min<U<19>> for U<18> {
    type Output = U<18>;
    const VALUE: usize = 18;

    proof fn lemma_output() {
    }
}

impl Min<U<20>> for U<18> {
    type Output = U<18>;
    const VALUE: usize = 18;

    proof fn lemma_output() {
    }
}

impl Min<U<21>> for U<18> {
    type Output = U<18>;
    const VALUE: usize = 18;

    proof fn lemma_output() {
    }
}

impl Min<U<22>> for U<18> {
    type Output = U<18>;
    const VALUE: usize = 18;

    proof fn lemma_output() {
    }
}

impl Min<U<23>> for U<18> {
    type Output = U<18>;
    const VALUE: usize = 18;

    proof fn lemma_output() {
    }
}

impl Min<U<24>> for U<18> {
    type Output = U<18>;
    const VALUE: usize = 18;

    proof fn lemma_output() {
    }
}

impl Min<U<25>> for U<18> {
    type Output = U<18>;
    const VALUE: usize = 18;

    proof fn lemma_output() {
    }
}

impl Min<U<26>> for U<18> {
    type Output = U<18>;
    const VALUE: usize = 18;

    proof fn lemma_output() {
    }
}

impl Min<U<27>> for U<18> {
    type Output = U<18>;
    const VALUE: usize = 18;

    proof fn lemma_output() {
    }
}

impl Min<U<28>> for U<18> {
    type Output = U<18>;
    const VALUE: usize = 18;

    proof fn lemma_output() {
    }
}

impl Min<U<29>> for U<18> {
    type Output = U<18>;
    const VALUE: usize = 18;

    proof fn lemma_output() {
    }
}

impl Min<U<30>> for U<18> {
    type Output = U<18>;
    const VALUE: usize = 18;

    proof fn lemma_output() {
    }
}

impl Min<U<31>> for U<18> {
    type Output = U<18>;
    const VALUE: usize = 18;

    proof fn lemma_output() {
    }
}

impl Min<U<0>> for U<19> {
    type Output = U<0>;
    const VALUE: usize = 0;

    proof fn lemma_output() {
    }
}

impl Min<U<1>> for U<19> {
    type Output = U<1>;
    const VALUE: usize = 1;

    proof fn lemma_output() {
    }
}

impl Min<U<2>> for U<19> {
    type Output = U<2>;
    const VALUE: usize = 2;

    proof fn lemma_output() {
    }
}

impl Min<U<3>> for U<19> {
    type Output = U<3>;
    const VALUE: usize = 3;

    proof fn lemma_output() {
    }
}

impl Min<U<4>> for U<19> {
    type Output = U<4>;
    const VALUE: usize = 4;

    proof fn lemma_output() {
    }
}

impl Min<U<5>> for U<19> {
    type Output = U<5>;
    const VALUE: usize = 5;

    proof fn lemma_output() {
    }
}

impl Min<U<6>> for U<19> {
    type Output = U<6>;
    const VALUE: usize = 6;

    proof fn lemma_output() {
    }
}

impl Min<U<7>> for U<19> {
    type Output = U<7>;
    const VALUE: usize = 7;

    proof fn lemma_output() {
    }
}

impl Min<U<8>> for U<19> {
    type Output = U<8>;
    const VALUE: usize = 8;

    proof fn lemma_output() {
    }
}

impl Min<U<9>> for U<19> {
    type Output = U<9>;
    const VALUE: usize = 9;

    proof fn lemma_output() {
    }
}

impl Min<U<10>> for U<19> {
    type Output = U<10>;
    const VALUE: usize = 10;

    proof fn lemma_output() {
    }
}

impl Min<U<11>> for U<19> {
    type Output = U<11>;
    const VALUE: usize = 11;

    proof fn lemma_output() {
    }
}

impl Min<U<12>> for U<19> {
    type Output = U<12>;
    const VALUE: usize = 12;

    proof fn lemma_output() {
    }
}

impl Min<U<13>> for U<19> {
    type Output = U<13>;
    const VALUE: usize = 13;

    proof fn lemma_output() {
    }
}

impl Min<U<14>> for U<19> {
    type Output = U<14>;
    const VALUE: usize = 14;

    proof fn lemma_output() {
    }
}

impl Min<U<15>> for U<19> {
    type Output = U<15>;
    const VALUE: usize = 15;

    proof fn lemma_output() {
    }
}

impl Min<U<16>> for U<19> {
    type Output = U<16>;
    const VALUE: usize = 16;

    proof fn lemma_output() {
    }
}

impl Min<U<17>> for U<19> {
    type Output = U<17>;
    const VALUE: usize = 17;

    proof fn lemma_output() {
    }
}

impl Min<U<18>> for U<19> {
    type Output = U<18>;
    const VALUE: usize = 18;

    proof fn lemma_output() {
    }
}

impl Min<U<19>> for U<19> {
    type Output = U<19>;
    const VALUE: usize = 19;

    proof fn lemma_output() {
    }
}

impl Min<U<20>> for U<19> {
    type Output = U<19>;
    const VALUE: usize = 19;

    proof fn lemma_output() {
    }
}

impl Min<U<21>> for U<19> {
    type Output = U<19>;
    const VALUE: usize = 19;

    proof fn lemma_output() {
    }
}

impl Min<U<22>> for U<19> {
    type Output = U<19>;
    const VALUE: usize = 19;

    proof fn lemma_output() {
    }
}

impl Min<U<23>> for U<19> {
    type Output = U<19>;
    const VALUE: usize = 19;

    proof fn lemma_output() {
    }
}

impl Min<U<24>> for U<19> {
    type Output = U<19>;
    const VALUE: usize = 19;

    proof fn lemma_output() {
    }
}

impl Min<U<25>> for U<19> {
    type Output = U<19>;
    const VALUE: usize = 19;

    proof fn lemma_output() {
    }
}

impl Min<U<26>> for U<19> {
    type Output = U<19>;
    const VALUE: usize = 19;

    proof fn lemma_output() {
    }
}

impl Min<U<27>> for U<19> {
    type Output = U<19>;
    const VALUE: usize = 19;

    proof fn lemma_output() {
    }
}

impl Min<U<28>> for U<19> {
    type Output = U<19>;
    const VALUE: usize = 19;

    proof fn lemma_output() {
    }
}

impl Min<U<29>> for U<19> {
    type Output = U<19>;
    const VALUE: usize = 19;

    proof fn lemma_output() {
    }
}

impl Min<U<30>> for U<19> {
    type Output = U<19>;
    const VALUE: usize = 19;

    proof fn lemma_output() {
    }
}

impl Min<U<31>> for U<19> {
    type Output = U<19>;
    const VALUE: usize = 19;

    proof fn lemma_output() {
    }
}

impl Min<U<0>> for U<20> {
    type Output = U<0>;
    const VALUE: usize = 0;

    proof fn lemma_output() {
    }
}

impl Min<U<1>> for U<20> {
    type Output = U<1>;
    const VALUE: usize = 1;

    proof fn lemma_output() {
    }
}

impl Min<U<2>> for U<20> {
    type Output = U<2>;
    const VALUE: usize = 2;

    proof fn lemma_output() {
    }
}

impl Min<U<3>> for U<20> {
    type Output = U<3>;
    const VALUE: usize = 3;

    proof fn lemma_output() {
    }
}

impl Min<U<4>> for U<20> {
    type Output = U<4>;
    const VALUE: usize = 4;

    proof fn lemma_output() {
    }
}

impl Min<U<5>> for U<20> {
    type Output = U<5>;
    const VALUE: usize = 5;

    proof fn lemma_output() {
    }
}

impl Min<U<6>> for U<20> {
    type Output = U<6>;
    const VALUE: usize = 6;

    proof fn lemma_output() {
    }
}

impl Min<U<7>> for U<20> {
    type Output = U<7>;
    const VALUE: usize = 7;

    proof fn lemma_output() {
    }
}

impl Min<U<8>> for U<20> {
    type Output = U<8>;
    const VALUE: usize = 8;

    proof fn lemma_output() {
    }
}

impl Min<U<9>> for U<20> {
    type Output = U<9>;
    const VALUE: usize = 9;

    proof fn lemma_output() {
    }
}

impl Min<U<10>> for U<20> {
    type Output = U<10>;
    const VALUE: usize = 10;

    proof fn lemma_output() {
    }
}

impl Min<U<11>> for U<20> {
    type Output = U<11>;
    const VALUE: usize = 11;

    proof fn lemma_output() {
    }
}

impl Min<U<12>> for U<20> {
    type Output = U<12>;
    const VALUE: usize = 12;

    proof fn lemma_output() {
    }
}

impl Min<U<13>> for U<20> {
    type Output = U<13>;
    const VALUE: usize = 13;

    proof fn lemma_output() {
    }
}

impl Min<U<14>> for U<20> {
    type Output = U<14>;
    const VALUE: usize = 14;

    proof fn lemma_output() {
    }
}

impl Min<U<15>> for U<20> {
    type Output = U<15>;
    const VALUE: usize = 15;

    proof fn lemma_output() {
    }
}

impl Min<U<16>> for U<20> {
    type Output = U<16>;
    const VALUE: usize = 16;

    proof fn lemma_output() {
    }
}

impl Min<U<17>> for U<20> {
    type Output = U<17>;
    const VALUE: usize = 17;

    proof fn lemma_output() {
    }
}

impl Min<U<18>> for U<20> {
    type Output = U<18>;
    const VALUE: usize = 18;

    proof fn lemma_output() {
    }
}

impl Min<U<19>> for U<20> {
    type Output = U<19>;
    const VALUE: usize = 19;

    proof fn lemma_output() {
    }
}

impl Min<U<20>> for U<20> {
    type Output = U<20>;
    const VALUE: usize = 20;

    proof fn lemma_output() {
    }
}

impl Min<U<21>> for U<20> {
    type Output = U<20>;
    const VALUE: usize = 20;

    proof fn lemma_output() {
    }
}

impl Min<U<22>> for U<20> {
    type Output = U<20>;
    const VALUE: usize = 20;

    proof fn lemma_output() {
    }
}

impl Min<U<23>> for U<20> {
    type Output = U<20>;
    const VALUE: usize = 20;

    proof fn lemma_output() {
    }
}

impl Min<U<24>> for U<20> {
    type Output = U<20>;
    const VALUE: usize = 20;

    proof fn lemma_output() {
    }
}

impl Min<U<25>> for U<20> {
    type Output = U<20>;
    const VALUE: usize = 20;

    proof fn lemma_output() {
    }
}

impl Min<U<26>> for U<20> {
    type Output = U<20>;
    const VALUE: usize = 20;

    proof fn lemma_output() {
    }
}

impl Min<U<27>> for U<20> {
    type Output = U<20>;
    const VALUE: usize = 20;

    proof fn lemma_output() {
    }
}

impl Min<U<28>> for U<20> {
    type Output = U<20>;
    const VALUE: usize = 20;

    proof fn lemma_output() {
    }
}

impl Min<U<29>> for U<20> {
    type Output = U<20>;
    const VALUE: usize = 20;

    proof fn lemma_output() {
    }
}

impl Min<U<30>> for U<20> {
    type Output = U<20>;
    const VALUE: usize = 20;

    proof fn lemma_output() {
    }
}

impl Min<U<31>> for U<20> {
    type Output = U<20>;
    const VALUE: usize = 20;

    proof fn lemma_output() {
    }
}

impl Min<U<0>> for U<21> {
    type Output = U<0>;
    const VALUE: usize = 0;

    proof fn lemma_output() {
    }
}

impl Min<U<1>> for U<21> {
    type Output = U<1>;
    const VALUE: usize = 1;

    proof fn lemma_output() {
    }
}

impl Min<U<2>> for U<21> {
    type Output = U<2>;
    const VALUE: usize = 2;

    proof fn lemma_output() {
    }
}

impl Min<U<3>> for U<21> {
    type Output = U<3>;
    const VALUE: usize = 3;

    proof fn lemma_output() {
    }
}

impl Min<U<4>> for U<21> {
    type Output = U<4>;
    const VALUE: usize = 4;

    proof fn lemma_output() {
    }
}

impl Min<U<5>> for U<21> {
    type Output = U<5>;
    const VALUE: usize = 5;

    proof fn lemma_output() {
    }
}

impl Min<U<6>> for U<21> {
    type Output = U<6>;
    const VALUE: usize = 6;

    proof fn lemma_output() {
    }
}

impl Min<U<7>> for U<21> {
    type Output = U<7>;
    const VALUE: usize = 7;

    proof fn lemma_output() {
    }
}

impl Min<U<8>> for U<21> {
    type Output = U<8>;
    const VALUE: usize = 8;

    proof fn lemma_output() {
    }
}

impl Min<U<9>> for U<21> {
    type Output = U<9>;
    const VALUE: usize = 9;

    proof fn lemma_output() {
    }
}

impl Min<U<10>> for U<21> {
    type Output = U<10>;
    const VALUE: usize = 10;

    proof fn lemma_output() {
    }
}

impl Min<U<11>> for U<21> {
    type Output = U<11>;
    const VALUE: usize = 11;

    proof fn lemma_output() {
    }
}

impl Min<U<12>> for U<21> {
    type Output = U<12>;
    const VALUE: usize = 12;

    proof fn lemma_output() {
    }
}

impl Min<U<13>> for U<21> {
    type Output = U<13>;
    const VALUE: usize = 13;

    proof fn lemma_output() {
    }
}

impl Min<U<14>> for U<21> {
    type Output = U<14>;
    const VALUE: usize = 14;

    proof fn lemma_output() {
    }
}

impl Min<U<15>> for U<21> {
    type Output = U<15>;
    const VALUE: usize = 15;

    proof fn lemma_output() {
    }
}

impl Min<U<16>> for U<21> {
    type Output = U<16>;
    const VALUE: usize = 16;

    proof fn lemma_output() {
    }
}

impl Min<U<17>> for U<21> {
    type Output = U<17>;
    const VALUE: usize = 17;

    proof fn lemma_output() {
    }
}

impl Min<U<18>> for U<21> {
    type Output = U<18>;
    const VALUE: usize = 18;

    proof fn lemma_output() {
    }
}

impl Min<U<19>> for U<21> {
    type Output = U<19>;
    const VALUE: usize = 19;

    proof fn lemma_output() {
    }
}

impl Min<U<20>> for U<21> {
    type Output = U<20>;
    const VALUE: usize = 20;

    proof fn lemma_output() {
    }
}

impl Min<U<21>> for U<21> {
    type Output = U<21>;
    const VALUE: usize = 21;

    proof fn lemma_output() {
    }
}

impl Min<U<22>> for U<21> {
    type Output = U<21>;
    const VALUE: usize = 21;

    proof fn lemma_output() {
    }
}

impl Min<U<23>> for U<21> {
    type Output = U<21>;
    const VALUE: usize = 21;

    proof fn lemma_output() {
    }
}

impl Min<U<24>> for U<21> {
    type Output = U<21>;
    const VALUE: usize = 21;

    proof fn lemma_output() {
    }
}

impl Min<U<25>> for U<21> {
    type Output = U<21>;
    const VALUE: usize = 21;

    proof fn lemma_output() {
    }
}

impl Min<U<26>> for U<21> {
    type Output = U<21>;
    const VALUE: usize = 21;

    proof fn lemma_output() {
    }
}

impl Min<U<27>> for U<21> {
    type Output = U<21>;
    const VALUE: usize = 21;

    proof fn lemma_output() {
    }
}

impl Min<U<28>> for U<21> {
    type Output = U<21>;
    const VALUE: usize = 21;

    proof fn lemma_output() {
    }
}

impl Min<U<29>> for U<21> {
    type Output = U<21>;
    const VALUE: usize = 21;

    proof fn lemma_output() {
    }
}

impl Min<U<30>> for U<21> {
    type Output = U<21>;
    const VALUE: usize = 21;

    proof fn lemma_output() {
    }
}

impl Min<U<31>> for U<21> {
    type Output = U<21>;
    const VALUE: usize = 21;

    proof fn lemma_output() {
    }
}

impl Min<U<0>> for U<22> {
    type Output = U<0>;
    const VALUE: usize = 0;

    proof fn lemma_output() {
    }
}

impl Min<U<1>> for U<22> {
    type Output = U<1>;
    const VALUE: usize = 1;

    proof fn lemma_output() {
    }
}

impl Min<U<2>> for U<22> {
    type Output = U<2>;
    const VALUE: usize = 2;

    proof fn lemma_output() {
    }
}

impl Min<U<3>> for U<22> {
    type Output = U<3>;
    const VALUE: usize = 3;

    proof fn lemma_output() {
    }
}

impl Min<U<4>> for U<22> {
    type Output = U<4>;
    const VALUE: usize = 4;

    proof fn lemma_output() {
    }
}

impl Min<U<5>> for U<22> {
    type Output = U<5>;
    const VALUE: usize = 5;

    proof fn lemma_output() {
    }
}

impl Min<U<6>> for U<22> {
    type Output = U<6>;
    const VALUE: usize = 6;

    proof fn lemma_output() {
    }
}

impl Min<U<7>> for U<22> {
    type Output = U<7>;
    const VALUE: usize = 7;

    proof fn lemma_output() {
    }
}

impl Min<U<8>> for U<22> {
    type Output = U<8>;
    const VALUE: usize = 8;

    proof fn lemma_output() {
    }
}

impl Min<U<9>> for U<22> {
    type Output = U<9>;
    const VALUE: usize = 9;

    proof fn lemma_output() {
    }
}

impl Min<U<10>> for U<22> {
    type Output = U<10>;
    const VALUE: usize = 10;

    proof fn lemma_output() {
    }
}

impl Min<U<11>> for U<22> {
    type Output = U<11>;
    const VALUE: usize = 11;

    proof fn lemma_output() {
    }
}

impl Min<U<12>> for U<22> {
    type Output = U<12>;
    const VALUE: usize = 12;

    proof fn lemma_output() {
    }
}

impl Min<U<13>> for U<22> {
    type Output = U<13>;
    const VALUE: usize = 13;

    proof fn lemma_output() {
    }
}

impl Min<U<14>> for U<22> {
    type Output = U<14>;
    const VALUE: usize = 14;

    proof fn lemma_output() {
    }
}

impl Min<U<15>> for U<22> {
    type Output = U<15>;
    const VALUE: usize = 15;

    proof fn lemma_output() {
    }
}

impl Min<U<16>> for U<22> {
    type Output = U<16>;
    const VALUE: usize = 16;

    proof fn lemma_output() {
    }
}

impl Min<U<17>> for U<22> {
    type Output = U<17>;
    const VALUE: usize = 17;

    proof fn lemma_output() {
    }
}

impl Min<U<18>> for U<22> {
    type Output = U<18>;
    const VALUE: usize = 18;

    proof fn lemma_output() {
    }
}

impl Min<U<19>> for U<22> {
    type Output = U<19>;
    const VALUE: usize = 19;

    proof fn lemma_output() {
    }
}

impl Min<U<20>> for U<22> {
    type Output = U<20>;
    const VALUE: usize = 20;

    proof fn lemma_output() {
    }
}

impl Min<U<21>> for U<22> {
    type Output = U<21>;
    const VALUE: usize = 21;

    proof fn lemma_output() {
    }
}

impl Min<U<22>> for U<22> {
    type Output = U<22>;
    const VALUE: usize = 22;

    proof fn lemma_output() {
    }
}

impl Min<U<23>> for U<22> {
    type Output = U<22>;
    const VALUE: usize = 22;

    proof fn lemma_output() {
    }
}

impl Min<U<24>> for U<22> {
    type Output = U<22>;
    const VALUE: usize = 22;

    proof fn lemma_output() {
    }
}

impl Min<U<25>> for U<22> {
    type Output = U<22>;
    const VALUE: usize = 22;

    proof fn lemma_output() {
    }
}

impl Min<U<26>> for U<22> {
    type Output = U<22>;
    const VALUE: usize = 22;

    proof fn lemma_output() {
    }
}

impl Min<U<27>> for U<22> {
    type Output = U<22>;
    const VALUE: usize = 22;

    proof fn lemma_output() {
    }
}

impl Min<U<28>> for U<22> {
    type Output = U<22>;
    const VALUE: usize = 22;

    proof fn lemma_output() {
    }
}

impl Min<U<29>> for U<22> {
    type Output = U<22>;
    const VALUE: usize = 22;

    proof fn lemma_output() {
    }
}

impl Min<U<30>> for U<22> {
    type Output = U<22>;
    const VALUE: usize = 22;

    proof fn lemma_output() {
    }
}

impl Min<U<31>> for U<22> {
    type Output = U<22>;
    const VALUE: usize = 22;

    proof fn lemma_output() {
    }
}

impl Min<U<0>> for U<23> {
    type Output = U<0>;
    const VALUE: usize = 0;

    proof fn lemma_output() {
    }
}

impl Min<U<1>> for U<23> {
    type Output = U<1>;
    const VALUE: usize = 1;

    proof fn lemma_output() {
    }
}

impl Min<U<2>> for U<23> {
    type Output = U<2>;
    const VALUE: usize = 2;

    proof fn lemma_output() {
    }
}

impl Min<U<3>> for U<23> {
    type Output = U<3>;
    const VALUE: usize = 3;

    proof fn lemma_output() {
    }
}

impl Min<U<4>> for U<23> {
    type Output = U<4>;
    const VALUE: usize = 4;

    proof fn lemma_output() {
    }
}

impl Min<U<5>> for U<23> {
    type Output = U<5>;
    const VALUE: usize = 5;

    proof fn lemma_output() {
    }
}

impl Min<U<6>> for U<23> {
    type Output = U<6>;
    const VALUE: usize = 6;

    proof fn lemma_output() {
    }
}

impl Min<U<7>> for U<23> {
    type Output = U<7>;
    const VALUE: usize = 7;

    proof fn lemma_output() {
    }
}

impl Min<U<8>> for U<23> {
    type Output = U<8>;
    const VALUE: usize = 8;

    proof fn lemma_output() {
    }
}

impl Min<U<9>> for U<23> {
    type Output = U<9>;
    const VALUE: usize = 9;

    proof fn lemma_output() {
    }
}

impl Min<U<10>> for U<23> {
    type Output = U<10>;
    const VALUE: usize = 10;

    proof fn lemma_output() {
    }
}

impl Min<U<11>> for U<23> {
    type Output = U<11>;
    const VALUE: usize = 11;

    proof fn lemma_output() {
    }
}

impl Min<U<12>> for U<23> {
    type Output = U<12>;
    const VALUE: usize = 12;

    proof fn lemma_output() {
    }
}

impl Min<U<13>> for U<23> {
    type Output = U<13>;
    const VALUE: usize = 13;

    proof fn lemma_output() {
    }
}

impl Min<U<14>> for U<23> {
    type Output = U<14>;
    const VALUE: usize = 14;

    proof fn lemma_output() {
    }
}

impl Min<U<15>> for U<23> {
    type Output = U<15>;
    const VALUE: usize = 15;

    proof fn lemma_output() {
    }
}

impl Min<U<16>> for U<23> {
    type Output = U<16>;
    const VALUE: usize = 16;

    proof fn lemma_output() {
    }
}

impl Min<U<17>> for U<23> {
    type Output = U<17>;
    const VALUE: usize = 17;

    proof fn lemma_output() {
    }
}

impl Min<U<18>> for U<23> {
    type Output = U<18>;
    const VALUE: usize = 18;

    proof fn lemma_output() {
    }
}

impl Min<U<19>> for U<23> {
    type Output = U<19>;
    const VALUE: usize = 19;

    proof fn lemma_output() {
    }
}

impl Min<U<20>> for U<23> {
    type Output = U<20>;
    const VALUE: usize = 20;

    proof fn lemma_output() {
    }
}

impl Min<U<21>> for U<23> {
    type Output = U<21>;
    const VALUE: usize = 21;

    proof fn lemma_output() {
    }
}

impl Min<U<22>> for U<23> {
    type Output = U<22>;
    const VALUE: usize = 22;

    proof fn lemma_output() {
    }
}

impl Min<U<23>> for U<23> {
    type Output = U<23>;
    const VALUE: usize = 23;

    proof fn lemma_output() {
    }
}

impl Min<U<24>> for U<23> {
    type Output = U<23>;
    const VALUE: usize = 23;

    proof fn lemma_output() {
    }
}

impl Min<U<25>> for U<23> {
    type Output = U<23>;
    const VALUE: usize = 23;

    proof fn lemma_output() {
    }
}

impl Min<U<26>> for U<23> {
    type Output = U<23>;
    const VALUE: usize = 23;

    proof fn lemma_output() {
    }
}

impl Min<U<27>> for U<23> {
    type Output = U<23>;
    const VALUE: usize = 23;

    proof fn lemma_output() {
    }
}

impl Min<U<28>> for U<23> {
    type Output = U<23>;
    const VALUE: usize = 23;

    proof fn lemma_output() {
    }
}

impl Min<U<29>> for U<23> {
    type Output = U<23>;
    const VALUE: usize = 23;

    proof fn lemma_output() {
    }
}

impl Min<U<30>> for U<23> {
    type Output = U<23>;
    const VALUE: usize = 23;

    proof fn lemma_output() {
    }
}

impl Min<U<31>> for U<23> {
    type Output = U<23>;
    const VALUE: usize = 23;

    proof fn lemma_output() {
    }
}

impl Min<U<0>> for U<24> {
    type Output = U<0>;
    const VALUE: usize = 0;

    proof fn lemma_output() {
    }
}

impl Min<U<1>> for U<24> {
    type Output = U<1>;
    const VALUE: usize = 1;

    proof fn lemma_output() {
    }
}

impl Min<U<2>> for U<24> {
    type Output = U<2>;
    const VALUE: usize = 2;

    proof fn lemma_output() {
    }
}

impl Min<U<3>> for U<24> {
    type Output = U<3>;
    const VALUE: usize = 3;

    proof fn lemma_output() {
    }
}

impl Min<U<4>> for U<24> {
    type Output = U<4>;
    const VALUE: usize = 4;

    proof fn lemma_output() {
    }
}

impl Min<U<5>> for U<24> {
    type Output = U<5>;
    const VALUE: usize = 5;

    proof fn lemma_output() {
    }
}

impl Min<U<6>> for U<24> {
    type Output = U<6>;
    const VALUE: usize = 6;

    proof fn lemma_output() {
    }
}

impl Min<U<7>> for U<24> {
    type Output = U<7>;
    const VALUE: usize = 7;

    proof fn lemma_output() {
    }
}

impl Min<U<8>> for U<24> {
    type Output = U<8>;
    const VALUE: usize = 8;

    proof fn lemma_output() {
    }
}

impl Min<U<9>> for U<24> {
    type Output = U<9>;
    const VALUE: usize = 9;

    proof fn lemma_output() {
    }
}

impl Min<U<10>> for U<24> {
    type Output = U<10>;
    const VALUE: usize = 10;

    proof fn lemma_output() {
    }
}

impl Min<U<11>> for U<24> {
    type Output = U<11>;
    const VALUE: usize = 11;

    proof fn lemma_output() {
    }
}

impl Min<U<12>> for U<24> {
    type Output = U<12>;
    const VALUE: usize = 12;

    proof fn lemma_output() {
    }
}

impl Min<U<13>> for U<24> {
    type Output = U<13>;
    const VALUE: usize = 13;

    proof fn lemma_output() {
    }
}

impl Min<U<14>> for U<24> {
    type Output = U<14>;
    const VALUE: usize = 14;

    proof fn lemma_output() {
    }
}

impl Min<U<15>> for U<24> {
    type Output = U<15>;
    const VALUE: usize = 15;

    proof fn lemma_output() {
    }
}

impl Min<U<16>> for U<24> {
    type Output = U<16>;
    const VALUE: usize = 16;

    proof fn lemma_output() {
    }
}

impl Min<U<17>> for U<24> {
    type Output = U<17>;
    const VALUE: usize = 17;

    proof fn lemma_output() {
    }
}

impl Min<U<18>> for U<24> {
    type Output = U<18>;
    const VALUE: usize = 18;

    proof fn lemma_output() {
    }
}

impl Min<U<19>> for U<24> {
    type Output = U<19>;
    const VALUE: usize = 19;

    proof fn lemma_output() {
    }
}

impl Min<U<20>> for U<24> {
    type Output = U<20>;
    const VALUE: usize = 20;

    proof fn lemma_output() {
    }
}

impl Min<U<21>> for U<24> {
    type Output = U<21>;
    const VALUE: usize = 21;

    proof fn lemma_output() {
    }
}

impl Min<U<22>> for U<24> {
    type Output = U<22>;
    const VALUE: usize = 22;

    proof fn lemma_output() {
    }
}

impl Min<U<23>> for U<24> {
    type Output = U<23>;
    const VALUE: usize = 23;

    proof fn lemma_output() {
    }
}

impl Min<U<24>> for U<24> {
    type Output = U<24>;
    const VALUE: usize = 24;

    proof fn lemma_output() {
    }
}

impl Min<U<25>> for U<24> {
    type Output = U<24>;
    const VALUE: usize = 24;

    proof fn lemma_output() {
    }
}

impl Min<U<26>> for U<24> {
    type Output = U<24>;
    const VALUE: usize = 24;

    proof fn lemma_output() {
    }
}

impl Min<U<27>> for U<24> {
    type Output = U<24>;
    const VALUE: usize = 24;

    proof fn lemma_output() {
    }
}

impl Min<U<28>> for U<24> {
    type Output = U<24>;
    const VALUE: usize = 24;

    proof fn lemma_output() {
    }
}

impl Min<U<29>> for U<24> {
    type Output = U<24>;
    const VALUE: usize = 24;

    proof fn lemma_output() {
    }
}

impl Min<U<30>> for U<24> {
    type Output = U<24>;
    const VALUE: usize = 24;

    proof fn lemma_output() {
    }
}

impl Min<U<31>> for U<24> {
    type Output = U<24>;
    const VALUE: usize = 24;

    proof fn lemma_output() {
    }
}

impl Min<U<0>> for U<25> {
    type Output = U<0>;
    const VALUE: usize = 0;

    proof fn lemma_output() {
    }
}

impl Min<U<1>> for U<25> {
    type Output = U<1>;
    const VALUE: usize = 1;

    proof fn lemma_output() {
    }
}

impl Min<U<2>> for U<25> {
    type Output = U<2>;
    const VALUE: usize = 2;

    proof fn lemma_output() {
    }
}

impl Min<U<3>> for U<25> {
    type Output = U<3>;
    const VALUE: usize = 3;

    proof fn lemma_output() {
    }
}

impl Min<U<4>> for U<25> {
    type Output = U<4>;
    const VALUE: usize = 4;

    proof fn lemma_output() {
    }
}

impl Min<U<5>> for U<25> {
    type Output = U<5>;
    const VALUE: usize = 5;

    proof fn lemma_output() {
    }
}

impl Min<U<6>> for U<25> {
    type Output = U<6>;
    const VALUE: usize = 6;

    proof fn lemma_output() {
    }
}

impl Min<U<7>> for U<25> {
    type Output = U<7>;
    const VALUE: usize = 7;

    proof fn lemma_output() {
    }
}

impl Min<U<8>> for U<25> {
    type Output = U<8>;
    const VALUE: usize = 8;

    proof fn lemma_output() {
    }
}

impl Min<U<9>> for U<25> {
    type Output = U<9>;
    const VALUE: usize = 9;

    proof fn lemma_output() {
    }
}

impl Min<U<10>> for U<25> {
    type Output = U<10>;
    const VALUE: usize = 10;

    proof fn lemma_output() {
    }
}

impl Min<U<11>> for U<25> {
    type Output = U<11>;
    const VALUE: usize = 11;

    proof fn lemma_output() {
    }
}

impl Min<U<12>> for U<25> {
    type Output = U<12>;
    const VALUE: usize = 12;

    proof fn lemma_output() {
    }
}

impl Min<U<13>> for U<25> {
    type Output = U<13>;
    const VALUE: usize = 13;

    proof fn lemma_output() {
    }
}

impl Min<U<14>> for U<25> {
    type Output = U<14>;
    const VALUE: usize = 14;

    proof fn lemma_output() {
    }
}

impl Min<U<15>> for U<25> {
    type Output = U<15>;
    const VALUE: usize = 15;

    proof fn lemma_output() {
    }
}

impl Min<U<16>> for U<25> {
    type Output = U<16>;
    const VALUE: usize = 16;

    proof fn lemma_output() {
    }
}

impl Min<U<17>> for U<25> {
    type Output = U<17>;
    const VALUE: usize = 17;

    proof fn lemma_output() {
    }
}

impl Min<U<18>> for U<25> {
    type Output = U<18>;
    const VALUE: usize = 18;

    proof fn lemma_output() {
    }
}

impl Min<U<19>> for U<25> {
    type Output = U<19>;
    const VALUE: usize = 19;

    proof fn lemma_output() {
    }
}

impl Min<U<20>> for U<25> {
    type Output = U<20>;
    const VALUE: usize = 20;

    proof fn lemma_output() {
    }
}

impl Min<U<21>> for U<25> {
    type Output = U<21>;
    const VALUE: usize = 21;

    proof fn lemma_output() {
    }
}

impl Min<U<22>> for U<25> {
    type Output = U<22>;
    const VALUE: usize = 22;

    proof fn lemma_output() {
    }
}

impl Min<U<23>> for U<25> {
    type Output = U<23>;
    const VALUE: usize = 23;

    proof fn lemma_output() {
    }
}

impl Min<U<24>> for U<25> {
    type Output = U<24>;
    const VALUE: usize = 24;

    proof fn lemma_output() {
    }
}

impl Min<U<25>> for U<25> {
    type Output = U<25>;
    const VALUE: usize = 25;

    proof fn lemma_output() {
    }
}

impl Min<U<26>> for U<25> {
    type Output = U<25>;
    const VALUE: usize = 25;

    proof fn lemma_output() {
    }
}

impl Min<U<27>> for U<25> {
    type Output = U<25>;
    const VALUE: usize = 25;

    proof fn lemma_output() {
    }
}

impl Min<U<28>> for U<25> {
    type Output = U<25>;
    const VALUE: usize = 25;

    proof fn lemma_output() {
    }
}

impl Min<U<29>> for U<25> {
    type Output = U<25>;
    const VALUE: usize = 25;

    proof fn lemma_output() {
    }
}

impl Min<U<30>> for U<25> {
    type Output = U<25>;
    const VALUE: usize = 25;

    proof fn lemma_output() {
    }
}

impl Min<U<31>> for U<25> {
    type Output = U<25>;
    const VALUE: usize = 25;

    proof fn lemma_output() {
    }
}

impl Min<U<0>> for U<26> {
    type Output = U<0>;
    const VALUE: usize = 0;

    proof fn lemma_output() {
    }
}

impl Min<U<1>> for U<26> {
    type Output = U<1>;
    const VALUE: usize = 1;

    proof fn lemma_output() {
    }
}

impl Min<U<2>> for U<26> {
    type Output = U<2>;
    const VALUE: usize = 2;

    proof fn lemma_output() {
    }
}

impl Min<U<3>> for U<26> {
    type Output = U<3>;
    const VALUE: usize = 3;

    proof fn lemma_output() {
    }
}

impl Min<U<4>> for U<26> {
    type Output = U<4>;
    const VALUE: usize = 4;

    proof fn lemma_output() {
    }
}

impl Min<U<5>> for U<26> {
    type Output = U<5>;
    const VALUE: usize = 5;

    proof fn lemma_output() {
    }
}

impl Min<U<6>> for U<26> {
    type Output = U<6>;
    const VALUE: usize = 6;

    proof fn lemma_output() {
    }
}

impl Min<U<7>> for U<26> {
    type Output = U<7>;
    const VALUE: usize = 7;

    proof fn lemma_output() {
    }
}

impl Min<U<8>> for U<26> {
    type Output = U<8>;
    const VALUE: usize = 8;

    proof fn lemma_output() {
    }
}

impl Min<U<9>> for U<26> {
    type Output = U<9>;
    const VALUE: usize = 9;

    proof fn lemma_output() {
    }
}

impl Min<U<10>> for U<26> {
    type Output = U<10>;
    const VALUE: usize = 10;

    proof fn lemma_output() {
    }
}

impl Min<U<11>> for U<26> {
    type Output = U<11>;
    const VALUE: usize = 11;

    proof fn lemma_output() {
    }
}

impl Min<U<12>> for U<26> {
    type Output = U<12>;
    const VALUE: usize = 12;

    proof fn lemma_output() {
    }
}

impl Min<U<13>> for U<26> {
    type Output = U<13>;
    const VALUE: usize = 13;

    proof fn lemma_output() {
    }
}

impl Min<U<14>> for U<26> {
    type Output = U<14>;
    const VALUE: usize = 14;

    proof fn lemma_output() {
    }
}

impl Min<U<15>> for U<26> {
    type Output = U<15>;
    const VALUE: usize = 15;

    proof fn lemma_output() {
    }
}

impl Min<U<16>> for U<26> {
    type Output = U<16>;
    const VALUE: usize = 16;

    proof fn lemma_output() {
    }
}

impl Min<U<17>> for U<26> {
    type Output = U<17>;
    const VALUE: usize = 17;

    proof fn lemma_output() {
    }
}

impl Min<U<18>> for U<26> {
    type Output = U<18>;
    const VALUE: usize = 18;

    proof fn lemma_output() {
    }
}

impl Min<U<19>> for U<26> {
    type Output = U<19>;
    const VALUE: usize = 19;

    proof fn lemma_output() {
    }
}

impl Min<U<20>> for U<26> {
    type Output = U<20>;
    const VALUE: usize = 20;

    proof fn lemma_output() {
    }
}

impl Min<U<21>> for U<26> {
    type Output = U<21>;
    const VALUE: usize = 21;

    proof fn lemma_output() {
    }
}

impl Min<U<22>> for U<26> {
    type Output = U<22>;
    const VALUE: usize = 22;

    proof fn lemma_output() {
    }
}

impl Min<U<23>> for U<26> {
    type Output = U<23>;
    const VALUE: usize = 23;

    proof fn lemma_output() {
    }
}

impl Min<U<24>> for U<26> {
    type Output = U<24>;
    const VALUE: usize = 24;

    proof fn lemma_output() {
    }
}

impl Min<U<25>> for U<26> {
    type Output = U<25>;
    const VALUE: usize = 25;

    proof fn lemma_output() {
    }
}

impl Min<U<26>> for U<26> {
    type Output = U<26>;
    const VALUE: usize = 26;

    proof fn lemma_output() {
    }
}

impl Min<U<27>> for U<26> {
    type Output = U<26>;
    const VALUE: usize = 26;

    proof fn lemma_output() {
    }
}

impl Min<U<28>> for U<26> {
    type Output = U<26>;
    const VALUE: usize = 26;

    proof fn lemma_output() {
    }
}

impl Min<U<29>> for U<26> {
    type Output = U<26>;
    const VALUE: usize = 26;

    proof fn lemma_output() {
    }
}

impl Min<U<30>> for U<26> {
    type Output = U<26>;
    const VALUE: usize = 26;

    proof fn lemma_output() {
    }
}

impl Min<U<31>> for U<26> {
    type Output = U<26>;
    const VALUE: usize = 26;

    proof fn lemma_output() {
    }
}

impl Min<U<0>> for U<27> {
    type Output = U<0>;
    const VALUE: usize = 0;

    proof fn lemma_output() {
    }
}

impl Min<U<1>> for U<27> {
    type Output = U<1>;
    const VALUE: usize = 1;

    proof fn lemma_output() {
    }
}

impl Min<U<2>> for U<27> {
    type Output = U<2>;
    const VALUE: usize = 2;

    proof fn lemma_output() {
    }
}

impl Min<U<3>> for U<27> {
    type Output = U<3>;
    const VALUE: usize = 3;

    proof fn lemma_output() {
    }
}

impl Min<U<4>> for U<27> {
    type Output = U<4>;
    const VALUE: usize = 4;

    proof fn lemma_output() {
    }
}

impl Min<U<5>> for U<27> {
    type Output = U<5>;
    const VALUE: usize = 5;

    proof fn lemma_output() {
    }
}

impl Min<U<6>> for U<27> {
    type Output = U<6>;
    const VALUE: usize = 6;

    proof fn lemma_output() {
    }
}

impl Min<U<7>> for U<27> {
    type Output = U<7>;
    const VALUE: usize = 7;

    proof fn lemma_output() {
    }
}

impl Min<U<8>> for U<27> {
    type Output = U<8>;
    const VALUE: usize = 8;

    proof fn lemma_output() {
    }
}

impl Min<U<9>> for U<27> {
    type Output = U<9>;
    const VALUE: usize = 9;

    proof fn lemma_output() {
    }
}

impl Min<U<10>> for U<27> {
    type Output = U<10>;
    const VALUE: usize = 10;

    proof fn lemma_output() {
    }
}

impl Min<U<11>> for U<27> {
    type Output = U<11>;
    const VALUE: usize = 11;

    proof fn lemma_output() {
    }
}

impl Min<U<12>> for U<27> {
    type Output = U<12>;
    const VALUE: usize = 12;

    proof fn lemma_output() {
    }
}

impl Min<U<13>> for U<27> {
    type Output = U<13>;
    const VALUE: usize = 13;

    proof fn lemma_output() {
    }
}

impl Min<U<14>> for U<27> {
    type Output = U<14>;
    const VALUE: usize = 14;

    proof fn lemma_output() {
    }
}

impl Min<U<15>> for U<27> {
    type Output = U<15>;
    const VALUE: usize = 15;

    proof fn lemma_output() {
    }
}

impl Min<U<16>> for U<27> {
    type Output = U<16>;
    const VALUE: usize = 16;

    proof fn lemma_output() {
    }
}

impl Min<U<17>> for U<27> {
    type Output = U<17>;
    const VALUE: usize = 17;

    proof fn lemma_output() {
    }
}

impl Min<U<18>> for U<27> {
    type Output = U<18>;
    const VALUE: usize = 18;

    proof fn lemma_output() {
    }
}

impl Min<U<19>> for U<27> {
    type Output = U<19>;
    const VALUE: usize = 19;

    proof fn lemma_output() {
    }
}

impl Min<U<20>> for U<27> {
    type Output = U<20>;
    const VALUE: usize = 20;

    proof fn lemma_output() {
    }
}

impl Min<U<21>> for U<27> {
    type Output = U<21>;
    const VALUE: usize = 21;

    proof fn lemma_output() {
    }
}

impl Min<U<22>> for U<27> {
    type Output = U<22>;
    const VALUE: usize = 22;

    proof fn lemma_output() {
    }
}

impl Min<U<23>> for U<27> {
    type Output = U<23>;
    const VALUE: usize = 23;

    proof fn lemma_output() {
    }
}

impl Min<U<24>> for U<27> {
    type Output = U<24>;
    const VALUE: usize = 24;

    proof fn lemma_output() {
    }
}

impl Min<U<25>> for U<27> {
    type Output = U<25>;
    const VALUE: usize = 25;

    proof fn lemma_output() {
    }
}

impl Min<U<26>> for U<27> {
    type Output = U<26>;
    const VALUE: usize = 26;

    proof fn lemma_output() {
    }
}

impl Min<U<27>> for U<27> {
    type Output = U<27>;
    const VALUE: usize = 27;

    proof fn lemma_output() {
    }
}

impl Min<U<28>> for U<27> {
    type Output = U<27>;
    const VALUE: usize = 27;

    proof fn lemma_output() {
    }
}

impl Min<U<29>> for U<27> {
    type Output = U<27>;
    const VALUE: usize = 27;

    proof fn lemma_output() {
    }
}

impl Min<U<30>> for U<27> {
    type Output = U<27>;
    const VALUE: usize = 27;

    proof fn lemma_output() {
    }
}

impl Min<U<31>> for U<27> {
    type Output = U<27>;
    const VALUE: usize = 27;

    proof fn lemma_output() {
    }
}

impl Min<U<0>> for U<28> {
    type Output = U<0>;
    const VALUE: usize = 0;

    proof fn lemma_output() {
    }
}

impl Min<U<1>> for U<28> {
    type Output = U<1>;
    const VALUE: usize = 1;

    proof fn lemma_output() {
    }
}

impl Min<U<2>> for U<28> {
    type Output = U<2>;
    const VALUE: usize = 2;

    proof fn lemma_output() {
    }
}

impl Min<U<3>> for U<28> {
    type Output = U<3>;
    const VALUE: usize = 3;

    proof fn lemma_output() {
    }
}

impl Min<U<4>> for U<28> {
    type Output = U<4>;
    const VALUE: usize = 4;

    proof fn lemma_output() {
    }
}

impl Min<U<5>> for U<28> {
    type Output = U<5>;
    const VALUE: usize = 5;

    proof fn lemma_output() {
    }
}

impl Min<U<6>> for U<28> {
    type Output = U<6>;
    const VALUE: usize = 6;

    proof fn lemma_output() {
    }
}

impl Min<U<7>> for U<28> {
    type Output = U<7>;
    const VALUE: usize = 7;

    proof fn lemma_output() {
    }
}

impl Min<U<8>> for U<28> {
    type Output = U<8>;
    const VALUE: usize = 8;

    proof fn lemma_output() {
    }
}

impl Min<U<9>> for U<28> {
    type Output = U<9>;
    const VALUE: usize = 9;

    proof fn lemma_output() {
    }
}

impl Min<U<10>> for U<28> {
    type Output = U<10>;
    const VALUE: usize = 10;

    proof fn lemma_output() {
    }
}

impl Min<U<11>> for U<28> {
    type Output = U<11>;
    const VALUE: usize = 11;

    proof fn lemma_output() {
    }
}

impl Min<U<12>> for U<28> {
    type Output = U<12>;
    const VALUE: usize = 12;

    proof fn lemma_output() {
    }
}

impl Min<U<13>> for U<28> {
    type Output = U<13>;
    const VALUE: usize = 13;

    proof fn lemma_output() {
    }
}

impl Min<U<14>> for U<28> {
    type Output = U<14>;
    const VALUE: usize = 14;

    proof fn lemma_output() {
    }
}

impl Min<U<15>> for U<28> {
    type Output = U<15>;
    const VALUE: usize = 15;

    proof fn lemma_output() {
    }
}

impl Min<U<16>> for U<28> {
    type Output = U<16>;
    const VALUE: usize = 16;

    proof fn lemma_output() {
    }
}

impl Min<U<17>> for U<28> {
    type Output = U<17>;
    const VALUE: usize = 17;

    proof fn lemma_output() {
    }
}

impl Min<U<18>> for U<28> {
    type Output = U<18>;
    const VALUE: usize = 18;

    proof fn lemma_output() {
    }
}

impl Min<U<19>> for U<28> {
    type Output = U<19>;
    const VALUE: usize = 19;

    proof fn lemma_output() {
    }
}

impl Min<U<20>> for U<28> {
    type Output = U<20>;
    const VALUE: usize = 20;

    proof fn lemma_output() {
    }
}

impl Min<U<21>> for U<28> {
    type Output = U<21>;
    const VALUE: usize = 21;

    proof fn lemma_output() {
    }
}

impl Min<U<22>> for U<28> {
    type Output = U<22>;
    const VALUE: usize = 22;

    proof fn lemma_output() {
    }
}

impl Min<U<23>> for U<28> {
    type Output = U<23>;
    const VALUE: usize = 23;

    proof fn lemma_output() {
    }
}

impl Min<U<24>> for U<28> {
    type Output = U<24>;
    const VALUE: usize = 24;

    proof fn lemma_output() {
    }
}

impl Min<U<25>> for U<28> {
    type Output = U<25>;
    const VALUE: usize = 25;

    proof fn lemma_output() {
    }
}

impl Min<U<26>> for U<28> {
    type Output = U<26>;
    const VALUE: usize = 26;

    proof fn lemma_output() {
    }
}

impl Min<U<27>> for U<28> {
    type Output = U<27>;
    const VALUE: usize = 27;

    proof fn lemma_output() {
    }
}

impl Min<U<28>> for U<28> {
    type Output = U<28>;
    const VALUE: usize = 28;

    proof fn lemma_output() {
    }
}

impl Min<U<29>> for U<28> {
    type Output = U<28>;
    const VALUE: usize = 28;

    proof fn lemma_output() {
    }
}

impl Min<U<30>> for U<28> {
    type Output = U<28>;
    const VALUE: usize = 28;

    proof fn lemma_output() {
    }
}

impl Min<U<31>> for U<28> {
    type Output = U<28>;
    const VALUE: usize = 28;

    proof fn lemma_output() {
    }
}

impl Min<U<0>> for U<29> {
    type Output = U<0>;
    const VALUE: usize = 0;

    proof fn lemma_output() {
    }
}

impl Min<U<1>> for U<29> {
    type Output = U<1>;
    const VALUE: usize = 1;

    proof fn lemma_output() {
    }
}

impl Min<U<2>> for U<29> {
    type Output = U<2>;
    const VALUE: usize = 2;

    proof fn lemma_output() {
    }
}

impl Min<U<3>> for U<29> {
    type Output = U<3>;
    const VALUE: usize = 3;

    proof fn lemma_output() {
    }
}

impl Min<U<4>> for U<29> {
    type Output = U<4>;
    const VALUE: usize = 4;

    proof fn lemma_output() {
    }
}

impl Min<U<5>> for U<29> {
    type Output = U<5>;
    const VALUE: usize = 5;

    proof fn lemma_output() {
    }
}

impl Min<U<6>> for U<29> {
    type Output = U<6>;
    const VALUE: usize = 6;

    proof fn lemma_output() {
    }
}

impl Min<U<7>> for U<29> {
    type Output = U<7>;
    const VALUE: usize = 7;

    proof fn lemma_output() {
    }
}

impl Min<U<8>> for U<29> {
    type Output = U<8>;
    const VALUE: usize = 8;

    proof fn lemma_output() {
    }
}

impl Min<U<9>> for U<29> {
    type Output = U<9>;
    const VALUE: usize = 9;

    proof fn lemma_output() {
    }
}

impl Min<U<10>> for U<29> {
    type Output = U<10>;
    const VALUE: usize = 10;

    proof fn lemma_output() {
    }
}

impl Min<U<11>> for U<29> {
    type Output = U<11>;
    const VALUE: usize = 11;

    proof fn lemma_output() {
    }
}

impl Min<U<12>> for U<29> {
    type Output = U<12>;
    const VALUE: usize = 12;

    proof fn lemma_output() {
    }
}

impl Min<U<13>> for U<29> {
    type Output = U<13>;
    const VALUE: usize = 13;

    proof fn lemma_output() {
    }
}

impl Min<U<14>> for U<29> {
    type Output = U<14>;
    const VALUE: usize = 14;

    proof fn lemma_output() {
    }
}

impl Min<U<15>> for U<29> {
    type Output = U<15>;
    const VALUE: usize = 15;

    proof fn lemma_output() {
    }
}

impl Min<U<16>> for U<29> {
    type Output = U<16>;
    const VALUE: usize = 16;

    proof fn lemma_output() {
    }
}

impl Min<U<17>> for U<29> {
    type Output = U<17>;
    const VALUE: usize = 17;

    proof fn lemma_output() {
    }
}

impl Min<U<18>> for U<29> {
    type Output = U<18>;
    const VALUE: usize = 18;

    proof fn lemma_output() {
    }
}

impl Min<U<19>> for U<29> {
    type Output = U<19>;
    const VALUE: usize = 19;

    proof fn lemma_output() {
    }
}

impl Min<U<20>> for U<29> {
    type Output = U<20>;
    const VALUE: usize = 20;

    proof fn lemma_output() {
    }
}

impl Min<U<21>> for U<29> {
    type Output = U<21>;
    const VALUE: usize = 21;

    proof fn lemma_output() {
    }
}

impl Min<U<22>> for U<29> {
    type Output = U<22>;
    const VALUE: usize = 22;

    proof fn lemma_output() {
    }
}

impl Min<U<23>> for U<29> {
    type Output = U<23>;
    const VALUE: usize = 23;

    proof fn lemma_output() {
    }
}

impl Min<U<24>> for U<29> {
    type Output = U<24>;
    const VALUE: usize = 24;

    proof fn lemma_output() {
    }
}

impl Min<U<25>> for U<29> {
    type Output = U<25>;
    const VALUE: usize = 25;

    proof fn lemma_output() {
    }
}

impl Min<U<26>> for U<29> {
    type Output = U<26>;
    const VALUE: usize = 26;

    proof fn lemma_output() {
    }
}

impl Min<U<27>> for U<29> {
    type Output = U<27>;
    const VALUE: usize = 27;

    proof fn lemma_output() {
    }
}

impl Min<U<28>> for U<29> {
    type Output = U<28>;
    const VALUE: usize = 28;

    proof fn lemma_output() {
    }
}

impl Min<U<29>> for U<29> {
    type Output = U<29>;
    const VALUE: usize = 29;

    proof fn lemma_output() {
    }
}

impl Min<U<30>> for U<29> {
    type Output = U<29>;
    const VALUE: usize = 29;

    proof fn lemma_output() {
    }
}

impl Min<U<31>> for U<29> {
    type Output = U<29>;
    const VALUE: usize = 29;

    proof fn lemma_output() {
    }
}

impl Min<U<0>> for U<30> {
    type Output = U<0>;
    const VALUE: usize = 0;

    proof fn lemma_output() {
    }
}

impl Min<U<1>> for U<30> {
    type Output = U<1>;
    const VALUE: usize = 1;

    proof fn lemma_output() {
    }
}

impl Min<U<2>> for U<30> {
    type Output = U<2>;
    const VALUE: usize = 2;

    proof fn lemma_output() {
    }
}

impl Min<U<3>> for U<30> {
    type Output = U<3>;
    const VALUE: usize = 3;

    proof fn lemma_output() {
    }
}

impl Min<U<4>> for U<30> {
    type Output = U<4>;
    const VALUE: usize = 4;

    proof fn lemma_output() {
    }
}

impl Min<U<5>> for U<30> {
    type Output = U<5>;
    const VALUE: usize = 5;

    proof fn lemma_output() {
    }
}

impl Min<U<6>> for U<30> {
    type Output = U<6>;
    const VALUE: usize = 6;

    proof fn lemma_output() {
    }
}

impl Min<U<7>> for U<30> {
    type Output = U<7>;
    const VALUE: usize = 7;

    proof fn lemma_output() {
    }
}

impl Min<U<8>> for U<30> {
    type Output = U<8>;
    const VALUE: usize = 8;

    proof fn lemma_output() {
    }
}

impl Min<U<9>> for U<30> {
    type Output = U<9>;
    const VALUE: usize = 9;

    proof fn lemma_output() {
    }
}

impl Min<U<10>> for U<30> {
    type Output = U<10>;
    const VALUE: usize = 10;

    proof fn lemma_output() {
    }
}

impl Min<U<11>> for U<30> {
    type Output = U<11>;
    const VALUE: usize = 11;

    proof fn lemma_output() {
    }
}

impl Min<U<12>> for U<30> {
    type Output = U<12>;
    const VALUE: usize = 12;

    proof fn lemma_output() {
    }
}

impl Min<U<13>> for U<30> {
    type Output = U<13>;
    const VALUE: usize = 13;

    proof fn lemma_output() {
    }
}

impl Min<U<14>> for U<30> {
    type Output = U<14>;
    const VALUE: usize = 14;

    proof fn lemma_output() {
    }
}

impl Min<U<15>> for U<30> {
    type Output = U<15>;
    const VALUE: usize = 15;

    proof fn lemma_output() {
    }
}

impl Min<U<16>> for U<30> {
    type Output = U<16>;
    const VALUE: usize = 16;

    proof fn lemma_output() {
    }
}

impl Min<U<17>> for U<30> {
    type Output = U<17>;
    const VALUE: usize = 17;

    proof fn lemma_output() {
    }
}

impl Min<U<18>> for U<30> {
    type Output = U<18>;
    const VALUE: usize = 18;

    proof fn lemma_output() {
    }
}

impl Min<U<19>> for U<30> {
    type Output = U<19>;
    const VALUE: usize = 19;

    proof fn lemma_output() {
    }
}

impl Min<U<20>> for U<30> {
    type Output = U<20>;
    const VALUE: usize = 20;

    proof fn lemma_output() {
    }
}

impl Min<U<21>> for U<30> {
    type Output = U<21>;
    const VALUE: usize = 21;

    proof fn lemma_output() {
    }
}

impl Min<U<22>> for U<30> {
    type Output = U<22>;
    const VALUE: usize = 22;

    proof fn lemma_output() {
    }
}

impl Min<U<23>> for U<30> {
    type Output = U<23>;
    const VALUE: usize = 23;

    proof fn lemma_output() {
    }
}

impl Min<U<24>> for U<30> {
    type Output = U<24>;
    const VALUE: usize = 24;

    proof fn lemma_output() {
    }
}

impl Min<U<25>> for U<30> {
    type Output = U<25>;
    const VALUE: usize = 25;

    proof fn lemma_output() {
    }
}

impl Min<U<26>> for U<30> {
    type Output = U<26>;
    const VALUE: usize = 26;

    proof fn lemma_output() {
    }
}

impl Min<U<27>> for U<30> {
    type Output = U<27>;
    const VALUE: usize = 27;

    proof fn lemma_output() {
    }
}

impl Min<U<28>> for U<30> {
    type Output = U<28>;
    const VALUE: usize = 28;

    proof fn lemma_output() {
    }
}

impl Min<U<29>> for U<30> {
    type Output = U<29>;
    const VALUE: usize = 29;

    proof fn lemma_output() {
    }
}

impl Min<U<30>> for U<30> {
    type Output = U<30>;
    const VALUE: usize = 30;

    proof fn lemma_output() {
    }
}

impl Min<U<31>> for U<30> {
    type Output = U<30>;
    const VALUE: usize = 30;

    proof fn lemma_output() {
    }
}

impl Min<U<0>> for U<31> {
    type Output = U<0>;
    const VALUE: usize = 0;

    proof fn lemma_output() {
    }
}

impl Min<U<1>> for U<31> {
    type Output = U<1>;
    const VALUE: usize = 1;

    proof fn lemma_output() {
    }
}

impl Min<U<2>> for U<31> {
    type Output = U<2>;
    const VALUE: usize = 2;

    proof fn lemma_output() {
    }
}

impl Min<U<3>> for U<31> {
    type Output = U<3>;
    const VALUE: usize = 3;

    proof fn lemma_output() {
    }
}

impl Min<U<4>> for U<31> {
    type Output = U<4>;
    const VALUE: usize = 4;

    proof fn lemma_output() {
    }
}

impl Min<U<5>> for U<31> {
    type Output = U<5>;
    const VALUE: usize = 5;

    proof fn lemma_output() {
    }
}

impl Min<U<6>> for U<31> {
    type Output = U<6>;
    const VALUE: usize = 6;

    proof fn lemma_output() {
    }
}

impl Min<U<7>> for U<31> {
    type Output = U<7>;
    const VALUE: usize = 7;

    proof fn lemma_output() {
    }
}

impl Min<U<8>> for U<31> {
    type Output = U<8>;
    const VALUE: usize = 8;

    proof fn lemma_output() {
    }
}

impl Min<U<9>> for U<31> {
    type Output = U<9>;
    const VALUE: usize = 9;

    proof fn lemma_output() {
    }
}

impl Min<U<10>> for U<31> {
    type Output = U<10>;
    const VALUE: usize = 10;

    proof fn lemma_output() {
    }
}

impl Min<U<11>> for U<31> {
    type Output = U<11>;
    const VALUE: usize = 11;

    proof fn lemma_output() {
    }
}

impl Min<U<12>> for U<31> {
    type Output = U<12>;
    const VALUE: usize = 12;

    proof fn lemma_output() {
    }
}

impl Min<U<13>> for U<31> {
    type Output = U<13>;
    const VALUE: usize = 13;

    proof fn lemma_output() {
    }
}

impl Min<U<14>> for U<31> {
    type Output = U<14>;
    const VALUE: usize = 14;

    proof fn lemma_output() {
    }
}

impl Min<U<15>> for U<31> {
    type Output = U<15>;
    const VALUE: usize = 15;

    proof fn lemma_output() {
    }
}

impl Min<U<16>> for U<31> {
    type Output = U<16>;
    const VALUE: usize = 16;

    proof fn lemma_output() {
    }
}

impl Min<U<17>> for U<31> {
    type Output = U<17>;
    const VALUE: usize = 17;

    proof fn lemma_output() {
    }
}

impl Min<U<18>> for U<31> {
    type Output = U<18>;
    const VALUE: usize = 18;

    proof fn lemma_output() {
    }
}

impl Min<U<19>> for U<31> {
    type Output = U<19>;
    const VALUE: usize = 19;

    proof fn lemma_output() {
    }
}

impl Min<U<20>> for U<31> {
    type Output = U<20>;
    const VALUE: usize = 20;

    proof fn lemma_output() {
    }
}

impl Min<U<21>> for U<31> {
    type Output = U<21>;
    const VALUE: usize = 21;

    proof fn lemma_output() {
    }
}

impl Min<U<22>> for U<31> {
    type Output = U<22>;
    const VALUE: usize = 22;

    proof fn lemma_output() {
    }
}

impl Min<U<23>> for U<31> {
    type Output = U<23>;
    const VALUE: usize = 23;

    proof fn lemma_output() {
    }
}

impl Min<U<24>> for U<31> {
    type Output = U<24>;
    const VALUE: usize = 24;

    proof fn lemma_output() {
    }
}

impl Min<U<25>> for U<31> {
    type Output = U<25>;
    const VALUE: usize = 25;

    proof fn lemma_output() {
    }
}

impl Min<U<26>> for U<31> {
    type Output = U<26>;
    const VALUE: usize = 26;

    proof fn lemma_output() {
    }
}

impl Min<U<27>> for U<31> {
    type Output = U<27>;
    const VALUE: usize = 27;

    proof fn lemma_output() {
    }
}

impl Min<U<28>> for U<31> {
    type Output = U<28>;
    const VALUE: usize = 28;

    proof fn lemma_output() {
    }
}

impl Min<U<29>> for U<31> {
    type Output = U<29>;
    const VALUE: usize = 29;

    proof fn lemma_output() {
    }
}

impl Min<U<30>> for U<31> {
    type Output = U<30>;
    const VALUE: usize = 30;

    proof fn lemma_output() {
    }
}

impl Min<U<31>> for U<31> {
    type Output = U<31>;
    const VALUE: usize = 31;

    proof fn lemma_output() {
    }
}

impl Max<U<0>> for U<0> {
    type Output = U<0>;
    const VALUE: usize = 0;

    proof fn lemma_output() {
    }
}

impl Max<U<1>> for U<0> {
    type Output = U<1>;
    const VALUE: usize = 1;

    proof fn lemma_output() {
    }
}

impl Max<U<2>> for U<0> {
    type Output = U<2>;
    const VALUE: usize = 2;

    proof fn lemma_output() {
    }
}

impl Max<U<3>> for U<0> {
    type Output = U<3>;
    const VALUE: usize = 3;

    proof fn lemma_output() {
    }
}

impl Max<U<4>> for U<0> {
    type Output = U<4>;
    const VALUE: usize = 4;

    proof fn lemma_output() {
    }
}

impl Max<U<5>> for U<0> {
    type Output = U<5>;
    const VALUE: usize = 5;

    proof fn lemma_output() {
    }
}

impl Max<U<6>> for U<0> {
    type Output = U<6>;
    const VALUE: usize = 6;

    proof fn lemma_output() {
    }
}

impl Max<U<7>> for U<0> {
    type Output = U<7>;
    const VALUE: usize = 7;

    proof fn lemma_output() {
    }
}

impl Max<U<8>> for U<0> {
    type Output = U<8>;
    const VALUE: usize = 8;

    proof fn lemma_output() {
    }
}

impl Max<U<9>> for U<0> {
    type Output = U<9>;
    const VALUE: usize = 9;

    proof fn lemma_output() {
    }
}

impl Max<U<10>> for U<0> {
    type Output = U<10>;
    const VALUE: usize = 10;

    proof fn lemma_output() {
    }
}

impl Max<U<11>> for U<0> {
    type Output = U<11>;
    const VALUE: usize = 11;

    proof fn lemma_output() {
    }
}

impl Max<U<12>> for U<0> {
    type Output = U<12>;
    const VALUE: usize = 12;

    proof fn lemma_output() {
    }
}

impl Max<U<13>> for U<0> {
    type Output = U<13>;
    const VALUE: usize = 13;

    proof fn lemma_output() {
    }
}

impl Max<U<14>> for U<0> {
    type Output = U<14>;
    const VALUE: usize = 14;

    proof fn lemma_output() {
    }
}

impl Max<U<15>> for U<0> {
    type Output = U<15>;
    const VALUE: usize = 15;

    proof fn lemma_output() {
    }
}

impl Max<U<16>> for U<0> {
    type Output = U<16>;
    const VALUE: usize = 16;

    proof fn lemma_output() {
    }
}

impl Max<U<17>> for U<0> {
    type Output = U<17>;
    const VALUE: usize = 17;

    proof fn lemma_output() {
    }
}

impl Max<U<18>> for U<0> {
    type Output = U<18>;
    const VALUE: usize = 18;

    proof fn lemma_output() {
    }
}

impl Max<U<19>> for U<0> {
    type Output = U<19>;
    const VALUE: usize = 19;

    proof fn lemma_output() {
    }
}

impl Max<U<20>> for U<0> {
    type Output = U<20>;
    const VALUE: usize = 20;

    proof fn lemma_output() {
    }
}

impl Max<U<21>> for U<0> {
    type Output = U<21>;
    const VALUE: usize = 21;

    proof fn lemma_output() {
    }
}

impl Max<U<22>> for U<0> {
    type Output = U<22>;
    const VALUE: usize = 22;

    proof fn lemma_output() {
    }
}

impl Max<U<23>> for U<0> {
    type Output = U<23>;
    const VALUE: usize = 23;

    proof fn lemma_output() {
    }
}

impl Max<U<24>> for U<0> {
    type Output = U<24>;
    const VALUE: usize = 24;

    proof fn lemma_output() {
    }
}

impl Max<U<25>> for U<0> {
    type Output = U<25>;
    const VALUE: usize = 25;

    proof fn lemma_output() {
    }
}

impl Max<U<26>> for U<0> {
    type Output = U<26>;
    const VALUE: usize = 26;

    proof fn lemma_output() {
    }
}

impl Max<U<27>> for U<0> {
    type Output = U<27>;
    const VALUE: usize = 27;

    proof fn lemma_output() {
    }
}

impl Max<U<28>> for U<0> {
    type Output = U<28>;
    const VALUE: usize = 28;

    proof fn lemma_output() {
    }
}

impl Max<U<29>> for U<0> {
    type Output = U<29>;
    const VALUE: usize = 29;

    proof fn lemma_output() {
    }
}

impl Max<U<30>> for U<0> {
    type Output = U<30>;
    const VALUE: usize = 30;

    proof fn lemma_output() {
    }
}

impl Max<U<31>> for U<0> {
    type Output = U<31>;
    const VALUE: usize = 31;

    proof fn lemma_output() {
    }
}

impl Max<U<0>> for U<1> {
    type Output = U<1>;
    const VALUE: usize = 1;

    proof fn lemma_output() {
    }
}

impl Max<U<1>> for U<1> {
    type Output = U<1>;
    const VALUE: usize = 1;

    proof fn lemma_output() {
    }
}

impl Max<U<2>> for U<1> {
    type Output = U<2>;
    const VALUE: usize = 2;

    proof fn lemma_output() {
    }
}

impl Max<U<3>> for U<1> {
    type Output = U<3>;
    const VALUE: usize = 3;

    proof fn lemma_output() {
    }
}

impl Max<U<4>> for U<1> {
    type Output = U<4>;
    const VALUE: usize = 4;

    proof fn lemma_output() {
    }
}

impl Max<U<5>> for U<1> {
    type Output = U<5>;
    const VALUE: usize = 5;

    proof fn lemma_output() {
    }
}

impl Max<U<6>> for U<1> {
    type Output = U<6>;
    const VALUE: usize = 6;

    proof fn lemma_output() {
    }
}

impl Max<U<7>> for U<1> {
    type Output = U<7>;
    const VALUE: usize = 7;

    proof fn lemma_output() {
    }
}

impl Max<U<8>> for U<1> {
    type Output = U<8>;
    const VALUE: usize = 8;

    proof fn lemma_output() {
    }
}

impl Max<U<9>> for U<1> {
    type Output = U<9>;
    const VALUE: usize = 9;

    proof fn lemma_output() {
    }
}

impl Max<U<10>> for U<1> {
    type Output = U<10>;
    const VALUE: usize = 10;

    proof fn lemma_output() {
    }
}

impl Max<U<11>> for U<1> {
    type Output = U<11>;
    const VALUE: usize = 11;

    proof fn lemma_output() {
    }
}

impl Max<U<12>> for U<1> {
    type Output = U<12>;
    const VALUE: usize = 12;

    proof fn lemma_output() {
    }
}

impl Max<U<13>> for U<1> {
    type Output = U<13>;
    const VALUE: usize = 13;

    proof fn lemma_output() {
    }
}

impl Max<U<14>> for U<1> {
    type Output = U<14>;
    const VALUE: usize = 14;

    proof fn lemma_output() {
    }
}

impl Max<U<15>> for U<1> {
    type Output = U<15>;
    const VALUE: usize = 15;

    proof fn lemma_output() {
    }
}

impl Max<U<16>> for U<1> {
    type Output = U<16>;
    const VALUE: usize = 16;

    proof fn lemma_output() {
    }
}

impl Max<U<17>> for U<1> {
    type Output = U<17>;
    const VALUE: usize = 17;

    proof fn lemma_output() {
    }
}

impl Max<U<18>> for U<1> {
    type Output = U<18>;
    const VALUE: usize = 18;

    proof fn lemma_output() {
    }
}

impl Max<U<19>> for U<1> {
    type Output = U<19>;
    const VALUE: usize = 19;

    proof fn lemma_output() {
    }
}

impl Max<U<20>> for U<1> {
    type Output = U<20>;
    const VALUE: usize = 20;

    proof fn lemma_output() {
    }
}

impl Max<U<21>> for U<1> {
    type Output = U<21>;
    const VALUE: usize = 21;

    proof fn lemma_output() {
    }
}

impl Max<U<22>> for U<1> {
    type Output = U<22>;
    const VALUE: usize = 22;

    proof fn lemma_output() {
    }
}

impl Max<U<23>> for U<1> {
    type Output = U<23>;
    const VALUE: usize = 23;

    proof fn lemma_output() {
    }
}

impl Max<U<24>> for U<1> {
    type Output = U<24>;
    const VALUE: usize = 24;

    proof fn lemma_output() {
    }
}

impl Max<U<25>> for U<1> {
    type Output = U<25>;
    const VALUE: usize = 25;

    proof fn lemma_output() {
    }
}

impl Max<U<26>> for U<1> {
    type Output = U<26>;
    const VALUE: usize = 26;

    proof fn lemma_output() {
    }
}

impl Max<U<27>> for U<1> {
    type Output = U<27>;
    const VALUE: usize = 27;

    proof fn lemma_output() {
    }
}

impl Max<U<28>> for U<1> {
    type Output = U<28>;
    const VALUE: usize = 28;

    proof fn lemma_output() {
    }
}

impl Max<U<29>> for U<1> {
    type Output = U<29>;
    const VALUE: usize = 29;

    proof fn lemma_output() {
    }
}

impl Max<U<30>> for U<1> {
    type Output = U<30>;
    const VALUE: usize = 30;

    proof fn lemma_output() {
    }
}

impl Max<U<31>> for U<1> {
    type Output = U<31>;
    const VALUE: usize = 31;

    proof fn lemma_output() {
    }
}

impl Max<U<0>> for U<2> {
    type Output = U<2>;
    const VALUE: usize = 2;

    proof fn lemma_output() {
    }
}

impl Max<U<1>> for U<2> {
    type Output = U<2>;
    const VALUE: usize = 2;

    proof fn lemma_output() {
    }
}

impl Max<U<2>> for U<2> {
    type Output = U<2>;
    const VALUE: usize = 2;

    proof fn lemma_output() {
    }
}

impl Max<U<3>> for U<2> {
    type Output = U<3>;
    const VALUE: usize = 3;

    proof fn lemma_output() {
    }
}

impl Max<U<4>> for U<2> {
    type Output = U<4>;
    const VALUE: usize = 4;

    proof fn lemma_output() {
    }
}

impl Max<U<5>> for U<2> {
    type Output = U<5>;
    const VALUE: usize = 5;

    proof fn lemma_output() {
    }
}

impl Max<U<6>> for U<2> {
    type Output = U<6>;
    const VALUE: usize = 6;

    proof fn lemma_output() {
    }
}

impl Max<U<7>> for U<2> {
    type Output = U<7>;
    const VALUE: usize = 7;

    proof fn lemma_output() {
    }
}

impl Max<U<8>> for U<2> {
    type Output = U<8>;
    const VALUE: usize = 8;

    proof fn lemma_output() {
    }
}

impl Max<U<9>> for U<2> {
    type Output = U<9>;
    const VALUE: usize = 9;

    proof fn lemma_output() {
    }
}

impl Max<U<10>> for U<2> {
    type Output = U<10>;
    const VALUE: usize = 10;

    proof fn lemma_output() {
    }
}

impl Max<U<11>> for U<2> {
    type Output = U<11>;
    const VALUE: usize = 11;

    proof fn lemma_output() {
    }
}

impl Max<U<12>> for U<2> {
    type Output = U<12>;
    const VALUE: usize = 12;

    proof fn lemma_output() {
    }
}

impl Max<U<13>> for U<2> {
    type Output = U<13>;
    const VALUE: usize = 13;

    proof fn lemma_output() {
    }
}

impl Max<U<14>> for U<2> {
    type Output = U<14>;
    const VALUE: usize = 14;

    proof fn lemma_output() {
    }
}

impl Max<U<15>> for U<2> {
    type Output = U<15>;
    const VALUE: usize = 15;

    proof fn lemma_output() {
    }
}

impl Max<U<16>> for U<2> {
    type Output = U<16>;
    const VALUE: usize = 16;

    proof fn lemma_output() {
    }
}

impl Max<U<17>> for U<2> {
    type Output = U<17>;
    const VALUE: usize = 17;

    proof fn lemma_output() {
    }
}

impl Max<U<18>> for U<2> {
    type Output = U<18>;
    const VALUE: usize = 18;

    proof fn lemma_output() {
    }
}

impl Max<U<19>> for U<2> {
    type Output = U<19>;
    const VALUE: usize = 19;

    proof fn lemma_output() {
    }
}

impl Max<U<20>> for U<2> {
    type Output = U<20>;
    const VALUE: usize = 20;

    proof fn lemma_output() {
    }
}

impl Max<U<21>> for U<2> {
    type Output = U<21>;
    const VALUE: usize = 21;

    proof fn lemma_output() {
    }
}

impl Max<U<22>> for U<2> {
    type Output = U<22>;
    const VALUE: usize = 22;

    proof fn lemma_output() {
    }
}

impl Max<U<23>> for U<2> {
    type Output = U<23>;
    const VALUE: usize = 23;

    proof fn lemma_output() {
    }
}

impl Max<U<24>> for U<2> {
    type Output = U<24>;
    const VALUE: usize = 24;

    proof fn lemma_output() {
    }
}

impl Max<U<25>> for U<2> {
    type Output = U<25>;
    const VALUE: usize = 25;

    proof fn lemma_output() {
    }
}

impl Max<U<26>> for U<2> {
    type Output = U<26>;
    const VALUE: usize = 26;

    proof fn lemma_output() {
    }
}

impl Max<U<27>> for U<2> {
    type Output = U<27>;
    const VALUE: usize = 27;

    proof fn lemma_output() {
    }
}

impl Max<U<28>> for U<2> {
    type Output = U<28>;
    const VALUE: usize = 28;

    proof fn lemma_output() {
    }
}

impl Max<U<29>> for U<2> {
    type Output = U<29>;
    const VALUE: usize = 29;

    proof fn lemma_output() {
    }
}

impl Max<U<30>> for U<2> {
    type Output = U<30>;
    const VALUE: usize = 30;

    proof fn lemma_output() {
    }
}

impl Max<U<31>> for U<2> {
    type Output = U<31>;
    const VALUE: usize = 31;

    proof fn lemma_output() {
    }
}

impl Max<U<0>> for U<3> {
    type Output = U<3>;
    const VALUE: usize = 3;

    proof fn lemma_output() {
    }
}

impl Max<U<1>> for U<3> {
    type Output = U<3>;
    const VALUE: usize = 3;

    proof fn lemma_output() {
    }
}

impl Max<U<2>> for U<3> {
    type Output = U<3>;
    const VALUE: usize = 3;

    proof fn lemma_output() {
    }
}

impl Max<U<3>> for U<3> {
    type Output = U<3>;
    const VALUE: usize = 3;

    proof fn lemma_output() {
    }
}

impl Max<U<4>> for U<3> {
    type Output = U<4>;
    const VALUE: usize = 4;

    proof fn lemma_output() {
    }
}

impl Max<U<5>> for U<3> {
    type Output = U<5>;
    const VALUE: usize = 5;

    proof fn lemma_output() {
    }
}

impl Max<U<6>> for U<3> {
    type Output = U<6>;
    const VALUE: usize = 6;

    proof fn lemma_output() {
    }
}

impl Max<U<7>> for U<3> {
    type Output = U<7>;
    const VALUE: usize = 7;

    proof fn lemma_output() {
    }
}

impl Max<U<8>> for U<3> {
    type Output = U<8>;
    const VALUE: usize = 8;

    proof fn lemma_output() {
    }
}

impl Max<U<9>> for U<3> {
    type Output = U<9>;
    const VALUE: usize = 9;

    proof fn lemma_output() {
    }
}

impl Max<U<10>> for U<3> {
    type Output = U<10>;
    const VALUE: usize = 10;

    proof fn lemma_output() {
    }
}

impl Max<U<11>> for U<3> {
    type Output = U<11>;
    const VALUE: usize = 11;

    proof fn lemma_output() {
    }
}

impl Max<U<12>> for U<3> {
    type Output = U<12>;
    const VALUE: usize = 12;

    proof fn lemma_output() {
    }
}

impl Max<U<13>> for U<3> {
    type Output = U<13>;
    const VALUE: usize = 13;

    proof fn lemma_output() {
    }
}

impl Max<U<14>> for U<3> {
    type Output = U<14>;
    const VALUE: usize = 14;

    proof fn lemma_output() {
    }
}

impl Max<U<15>> for U<3> {
    type Output = U<15>;
    const VALUE: usize = 15;

    proof fn lemma_output() {
    }
}

impl Max<U<16>> for U<3> {
    type Output = U<16>;
    const VALUE: usize = 16;

    proof fn lemma_output() {
    }
}

impl Max<U<17>> for U<3> {
    type Output = U<17>;
    const VALUE: usize = 17;

    proof fn lemma_output() {
    }
}

impl Max<U<18>> for U<3> {
    type Output = U<18>;
    const VALUE: usize = 18;

    proof fn lemma_output() {
    }
}

impl Max<U<19>> for U<3> {
    type Output = U<19>;
    const VALUE: usize = 19;

    proof fn lemma_output() {
    }
}

impl Max<U<20>> for U<3> {
    type Output = U<20>;
    const VALUE: usize = 20;

    proof fn lemma_output() {
    }
}

impl Max<U<21>> for U<3> {
    type Output = U<21>;
    const VALUE: usize = 21;

    proof fn lemma_output() {
    }
}

impl Max<U<22>> for U<3> {
    type Output = U<22>;
    const VALUE: usize = 22;

    proof fn lemma_output() {
    }
}

impl Max<U<23>> for U<3> {
    type Output = U<23>;
    const VALUE: usize = 23;

    proof fn lemma_output() {
    }
}

impl Max<U<24>> for U<3> {
    type Output = U<24>;
    const VALUE: usize = 24;

    proof fn lemma_output() {
    }
}

impl Max<U<25>> for U<3> {
    type Output = U<25>;
    const VALUE: usize = 25;

    proof fn lemma_output() {
    }
}

impl Max<U<26>> for U<3> {
    type Output = U<26>;
    const VALUE: usize = 26;

    proof fn lemma_output() {
    }
}

impl Max<U<27>> for U<3> {
    type Output = U<27>;
    const VALUE: usize = 27;

    proof fn lemma_output() {
    }
}

impl Max<U<28>> for U<3> {
    type Output = U<28>;
    const VALUE: usize = 28;

    proof fn lemma_output() {
    }
}

impl Max<U<29>> for U<3> {
    type Output = U<29>;
    const VALUE: usize = 29;

    proof fn lemma_output() {
    }
}

impl Max<U<30>> for U<3> {
    type Output = U<30>;
    const VALUE: usize = 30;

    proof fn lemma_output() {
    }
}

impl Max<U<31>> for U<3> {
    type Output = U<31>;
    const VALUE: usize = 31;

    proof fn lemma_output() {
    }
}

impl Max<U<0>> for U<4> {
    type Output = U<4>;
    const VALUE: usize = 4;

    proof fn lemma_output() {
    }
}

impl Max<U<1>> for U<4> {
    type Output = U<4>;
    const VALUE: usize = 4;

    proof fn lemma_output() {
    }
}

impl Max<U<2>> for U<4> {
    type Output = U<4>;
    const VALUE: usize = 4;

    proof fn lemma_output() {
    }
}

impl Max<U<3>> for U<4> {
    type Output = U<4>;
    const VALUE: usize = 4;

    proof fn lemma_output() {
    }
}

impl Max<U<4>> for U<4> {
    type Output = U<4>;
    const VALUE: usize = 4;

    proof fn lemma_output() {
    }
}

impl Max<U<5>> for U<4> {
    type Output = U<5>;
    const VALUE: usize = 5;

    proof fn lemma_output() {
    }
}

impl Max<U<6>> for U<4> {
    type Output = U<6>;
    const VALUE: usize = 6;

    proof fn lemma_output() {
    }
}

impl Max<U<7>> for U<4> {
    type Output = U<7>;
    const VALUE: usize = 7;

    proof fn lemma_output() {
    }
}

impl Max<U<8>> for U<4> {
    type Output = U<8>;
    const VALUE: usize = 8;

    proof fn lemma_output() {
    }
}

impl Max<U<9>> for U<4> {
    type Output = U<9>;
    const VALUE: usize = 9;

    proof fn lemma_output() {
    }
}

impl Max<U<10>> for U<4> {
    type Output = U<10>;
    const VALUE: usize = 10;

    proof fn lemma_output() {
    }
}

impl Max<U<11>> for U<4> {
    type Output = U<11>;
    const VALUE: usize = 11;

    proof fn lemma_output() {
    }
}

impl Max<U<12>> for U<4> {
    type Output = U<12>;
    const VALUE: usize = 12;

    proof fn lemma_output() {
    }
}

impl Max<U<13>> for U<4> {
    type Output = U<13>;
    const VALUE: usize = 13;

    proof fn lemma_output() {
    }
}

impl Max<U<14>> for U<4> {
    type Output = U<14>;
    const VALUE: usize = 14;

    proof fn lemma_output() {
    }
}

impl Max<U<15>> for U<4> {
    type Output = U<15>;
    const VALUE: usize = 15;

    proof fn lemma_output() {
    }
}

impl Max<U<16>> for U<4> {
    type Output = U<16>;
    const VALUE: usize = 16;

    proof fn lemma_output() {
    }
}

impl Max<U<17>> for U<4> {
    type Output = U<17>;
    const VALUE: usize = 17;

    proof fn lemma_output() {
    }
}

impl Max<U<18>> for U<4> {
    type Output = U<18>;
    const VALUE: usize = 18;

    proof fn lemma_output() {
    }
}

impl Max<U<19>> for U<4> {
    type Output = U<19>;
    const VALUE: usize = 19;

    proof fn lemma_output() {
    }
}

impl Max<U<20>> for U<4> {
    type Output = U<20>;
    const VALUE: usize = 20;

    proof fn lemma_output() {
    }
}

impl Max<U<21>> for U<4> {
    type Output = U<21>;
    const VALUE: usize = 21;

    proof fn lemma_output() {
    }
}

impl Max<U<22>> for U<4> {
    type Output = U<22>;
    const VALUE: usize = 22;

    proof fn lemma_output() {
    }
}

impl Max<U<23>> for U<4> {
    type Output = U<23>;
    const VALUE: usize = 23;

    proof fn lemma_output() {
    }
}

impl Max<U<24>> for U<4> {
    type Output = U<24>;
    const VALUE: usize = 24;

    proof fn lemma_output() {
    }
}

impl Max<U<25>> for U<4> {
    type Output = U<25>;
    const VALUE: usize = 25;

    proof fn lemma_output() {
    }
}

impl Max<U<26>> for U<4> {
    type Output = U<26>;
    const VALUE: usize = 26;

    proof fn lemma_output() {
    }
}

impl Max<U<27>> for U<4> {
    type Output = U<27>;
    const VALUE: usize = 27;

    proof fn lemma_output() {
    }
}

impl Max<U<28>> for U<4> {
    type Output = U<28>;
    const VALUE: usize = 28;

    proof fn lemma_output() {
    }
}

impl Max<U<29>> for U<4> {
    type Output = U<29>;
    const VALUE: usize = 29;

    proof fn lemma_output() {
    }
}

impl Max<U<30>> for U<4> {
    type Output = U<30>;
    const VALUE: usize = 30;

    proof fn lemma_output() {
    }
}

impl Max<U<31>> for U<4> {
    type Output = U<31>;
    const VALUE: usize = 31;

    proof fn lemma_output() {
    }
}

impl Max<U<0>> for U<5> {
    type Output = U<5>;
    const VALUE: usize = 5;

    proof fn lemma_output() {
    }
}

impl Max<U<1>> for U<5> {
    type Output = U<5>;
    const VALUE: usize = 5;

    proof fn lemma_output() {
    }
}

impl Max<U<2>> for U<5> {
    type Output = U<5>;
    const VALUE: usize = 5;

    proof fn lemma_output() {
    }
}

impl Max<U<3>> for U<5> {
    type Output = U<5>;
    const VALUE: usize = 5;

    proof fn lemma_output() {
    }
}

impl Max<U<4>> for U<5> {
    type Output = U<5>;
    const VALUE: usize = 5;

    proof fn lemma_output() {
    }
}

impl Max<U<5>> for U<5> {
    type Output = U<5>;
    const VALUE: usize = 5;

    proof fn lemma_output() {
    }
}

impl Max<U<6>> for U<5> {
    type Output = U<6>;
    const VALUE: usize = 6;

    proof fn lemma_output() {
    }
}

impl Max<U<7>> for U<5> {
    type Output = U<7>;
    const VALUE: usize = 7;

    proof fn lemma_output() {
    }
}

impl Max<U<8>> for U<5> {
    type Output = U<8>;
    const VALUE: usize = 8;

    proof fn lemma_output() {
    }
}

impl Max<U<9>> for U<5> {
    type Output = U<9>;
    const VALUE: usize = 9;

    proof fn lemma_output() {
    }
}

impl Max<U<10>> for U<5> {
    type Output = U<10>;
    const VALUE: usize = 10;

    proof fn lemma_output() {
    }
}

impl Max<U<11>> for U<5> {
    type Output = U<11>;
    const VALUE: usize = 11;

    proof fn lemma_output() {
    }
}

impl Max<U<12>> for U<5> {
    type Output = U<12>;
    const VALUE: usize = 12;

    proof fn lemma_output() {
    }
}

impl Max<U<13>> for U<5> {
    type Output = U<13>;
    const VALUE: usize = 13;

    proof fn lemma_output() {
    }
}

impl Max<U<14>> for U<5> {
    type Output = U<14>;
    const VALUE: usize = 14;

    proof fn lemma_output() {
    }
}

impl Max<U<15>> for U<5> {
    type Output = U<15>;
    const VALUE: usize = 15;

    proof fn lemma_output() {
    }
}

impl Max<U<16>> for U<5> {
    type Output = U<16>;
    const VALUE: usize = 16;

    proof fn lemma_output() {
    }
}

impl Max<U<17>> for U<5> {
    type Output = U<17>;
    const VALUE: usize = 17;

    proof fn lemma_output() {
    }
}

impl Max<U<18>> for U<5> {
    type Output = U<18>;
    const VALUE: usize = 18;

    proof fn lemma_output() {
    }
}

impl Max<U<19>> for U<5> {
    type Output = U<19>;
    const VALUE: usize = 19;

    proof fn lemma_output() {
    }
}

impl Max<U<20>> for U<5> {
    type Output = U<20>;
    const VALUE: usize = 20;

    proof fn lemma_output() {
    }
}

impl Max<U<21>> for U<5> {
    type Output = U<21>;
    const VALUE: usize = 21;

    proof fn lemma_output() {
    }
}

impl Max<U<22>> for U<5> {
    type Output = U<22>;
    const VALUE: usize = 22;

    proof fn lemma_output() {
    }
}

impl Max<U<23>> for U<5> {
    type Output = U<23>;
    const VALUE: usize = 23;

    proof fn lemma_output() {
    }
}

impl Max<U<24>> for U<5> {
    type Output = U<24>;
    const VALUE: usize = 24;

    proof fn lemma_output() {
    }
}

impl Max<U<25>> for U<5> {
    type Output = U<25>;
    const VALUE: usize = 25;

    proof fn lemma_output() {
    }
}

impl Max<U<26>> for U<5> {
    type Output = U<26>;
    const VALUE: usize = 26;

    proof fn lemma_output() {
    }
}

impl Max<U<27>> for U<5> {
    type Output = U<27>;
    const VALUE: usize = 27;

    proof fn lemma_output() {
    }
}

impl Max<U<28>> for U<5> {
    type Output = U<28>;
    const VALUE: usize = 28;

    proof fn lemma_output() {
    }
}

impl Max<U<29>> for U<5> {
    type Output = U<29>;
    const VALUE: usize = 29;

    proof fn lemma_output() {
    }
}

impl Max<U<30>> for U<5> {
    type Output = U<30>;
    const VALUE: usize = 30;

    proof fn lemma_output() {
    }
}

impl Max<U<31>> for U<5> {
    type Output = U<31>;
    const VALUE: usize = 31;

    proof fn lemma_output() {
    }
}

impl Max<U<0>> for U<6> {
    type Output = U<6>;
    const VALUE: usize = 6;

    proof fn lemma_output() {
    }
}

impl Max<U<1>> for U<6> {
    type Output = U<6>;
    const VALUE: usize = 6;

    proof fn lemma_output() {
    }
}

impl Max<U<2>> for U<6> {
    type Output = U<6>;
    const VALUE: usize = 6;

    proof fn lemma_output() {
    }
}

impl Max<U<3>> for U<6> {
    type Output = U<6>;
    const VALUE: usize = 6;

    proof fn lemma_output() {
    }
}

impl Max<U<4>> for U<6> {
    type Output = U<6>;
    const VALUE: usize = 6;

    proof fn lemma_output() {
    }
}

impl Max<U<5>> for U<6> {
    type Output = U<6>;
    const VALUE: usize = 6;

    proof fn lemma_output() {
    }
}

impl Max<U<6>> for U<6> {
    type Output = U<6>;
    const VALUE: usize = 6;

    proof fn lemma_output() {
    }
}

impl Max<U<7>> for U<6> {
    type Output = U<7>;
    const VALUE: usize = 7;

    proof fn lemma_output() {
    }
}

impl Max<U<8>> for U<6> {
    type Output = U<8>;
    const VALUE: usize = 8;

    proof fn lemma_output() {
    }
}

impl Max<U<9>> for U<6> {
    type Output = U<9>;
    const VALUE: usize = 9;

    proof fn lemma_output() {
    }
}

impl Max<U<10>> for U<6> {
    type Output = U<10>;
    const VALUE: usize = 10;

    proof fn lemma_output() {
    }
}

impl Max<U<11>> for U<6> {
    type Output = U<11>;
    const VALUE: usize = 11;

    proof fn lemma_output() {
    }
}

impl Max<U<12>> for U<6> {
    type Output = U<12>;
    const VALUE: usize = 12;

    proof fn lemma_output() {
    }
}

impl Max<U<13>> for U<6> {
    type Output = U<13>;
    const VALUE: usize = 13;

    proof fn lemma_output() {
    }
}

impl Max<U<14>> for U<6> {
    type Output = U<14>;
    const VALUE: usize = 14;

    proof fn lemma_output() {
    }
}

impl Max<U<15>> for U<6> {
    type Output = U<15>;
    const VALUE: usize = 15;

    proof fn lemma_output() {
    }
}

impl Max<U<16>> for U<6> {
    type Output = U<16>;
    const VALUE: usize = 16;

    proof fn lemma_output() {
    }
}

impl Max<U<17>> for U<6> {
    type Output = U<17>;
    const VALUE: usize = 17;

    proof fn lemma_output() {
    }
}

impl Max<U<18>> for U<6> {
    type Output = U<18>;
    const VALUE: usize = 18;

    proof fn lemma_output() {
    }
}

impl Max<U<19>> for U<6> {
    type Output = U<19>;
    const VALUE: usize = 19;

    proof fn lemma_output() {
    }
}

impl Max<U<20>> for U<6> {
    type Output = U<20>;
    const VALUE: usize = 20;

    proof fn lemma_output() {
    }
}

impl Max<U<21>> for U<6> {
    type Output = U<21>;
    const VALUE: usize = 21;

    proof fn lemma_output() {
    }
}

impl Max<U<22>> for U<6> {
    type Output = U<22>;
    const VALUE: usize = 22;

    proof fn lemma_output() {
    }
}

impl Max<U<23>> for U<6> {
    type Output = U<23>;
    const VALUE: usize = 23;

    proof fn lemma_output() {
    }
}

impl Max<U<24>> for U<6> {
    type Output = U<24>;
    const VALUE: usize = 24;

    proof fn lemma_output() {
    }
}

impl Max<U<25>> for U<6> {
    type Output = U<25>;
    const VALUE: usize = 25;

    proof fn lemma_output() {
    }
}

impl Max<U<26>> for U<6> {
    type Output = U<26>;
    const VALUE: usize = 26;

    proof fn lemma_output() {
    }
}

impl Max<U<27>> for U<6> {
    type Output = U<27>;
    const VALUE: usize = 27;

    proof fn lemma_output() {
    }
}

impl Max<U<28>> for U<6> {
    type Output = U<28>;
    const VALUE: usize = 28;

    proof fn lemma_output() {
    }
}

impl Max<U<29>> for U<6> {
    type Output = U<29>;
    const VALUE: usize = 29;

    proof fn lemma_output() {
    }
}

impl Max<U<30>> for U<6> {
    type Output = U<30>;
    const VALUE: usize = 30;

    proof fn lemma_output() {
    }
}

impl Max<U<31>> for U<6> {
    type Output = U<31>;
    const VALUE: usize = 31;

    proof fn lemma_output() {
    }
}

impl Max<U<0>> for U<7> {
    type Output = U<7>;
    const VALUE: usize = 7;

    proof fn lemma_output() {
    }
}

impl Max<U<1>> for U<7> {
    type Output = U<7>;
    const VALUE: usize = 7;

    proof fn lemma_output() {
    }
}

impl Max<U<2>> for U<7> {
    type Output = U<7>;
    const VALUE: usize = 7;

    proof fn lemma_output() {
    }
}

impl Max<U<3>> for U<7> {
    type Output = U<7>;
    const VALUE: usize = 7;

    proof fn lemma_output() {
    }
}

impl Max<U<4>> for U<7> {
    type Output = U<7>;
    const VALUE: usize = 7;

    proof fn lemma_output() {
    }
}

impl Max<U<5>> for U<7> {
    type Output = U<7>;
    const VALUE: usize = 7;

    proof fn lemma_output() {
    }
}

impl Max<U<6>> for U<7> {
    type Output = U<7>;
    const VALUE: usize = 7;

    proof fn lemma_output() {
    }
}

impl Max<U<7>> for U<7> {
    type Output = U<7>;
    const VALUE: usize = 7;

    proof fn lemma_output() {
    }
}

impl Max<U<8>> for U<7> {
    type Output = U<8>;
    const VALUE: usize = 8;

    proof fn lemma_output() {
    }
}

impl Max<U<9>> for U<7> {
    type Output = U<9>;
    const VALUE: usize = 9;

    proof fn lemma_output() {
    }
}

impl Max<U<10>> for U<7> {
    type Output = U<10>;
    const VALUE: usize = 10;

    proof fn lemma_output() {
    }
}

impl Max<U<11>> for U<7> {
    type Output = U<11>;
    const VALUE: usize = 11;

    proof fn lemma_output() {
    }
}

impl Max<U<12>> for U<7> {
    type Output = U<12>;
    const VALUE: usize = 12;

    proof fn lemma_output() {
    }
}

impl Max<U<13>> for U<7> {
    type Output = U<13>;
    const VALUE: usize = 13;

    proof fn lemma_output() {
    }
}

impl Max<U<14>> for U<7> {
    type Output = U<14>;
    const VALUE: usize = 14;

    proof fn lemma_output() {
    }
}

impl Max<U<15>> for U<7> {
    type Output = U<15>;
    const VALUE: usize = 15;

    proof fn lemma_output() {
    }
}

impl Max<U<16>> for U<7> {
    type Output = U<16>;
    const VALUE: usize = 16;

    proof fn lemma_output() {
    }
}

impl Max<U<17>> for U<7> {
    type Output = U<17>;
    const VALUE: usize = 17;

    proof fn lemma_output() {
    }
}

impl Max<U<18>> for U<7> {
    type Output = U<18>;
    const VALUE: usize = 18;

    proof fn lemma_output() {
    }
}

impl Max<U<19>> for U<7> {
    type Output = U<19>;
    const VALUE: usize = 19;

    proof fn lemma_output() {
    }
}

impl Max<U<20>> for U<7> {
    type Output = U<20>;
    const VALUE: usize = 20;

    proof fn lemma_output() {
    }
}

impl Max<U<21>> for U<7> {
    type Output = U<21>;
    const VALUE: usize = 21;

    proof fn lemma_output() {
    }
}

impl Max<U<22>> for U<7> {
    type Output = U<22>;
    const VALUE: usize = 22;

    proof fn lemma_output() {
    }
}

impl Max<U<23>> for U<7> {
    type Output = U<23>;
    const VALUE: usize = 23;

    proof fn lemma_output() {
    }
}

impl Max<U<24>> for U<7> {
    type Output = U<24>;
    const VALUE: usize = 24;

    proof fn lemma_output() {
    }
}

impl Max<U<25>> for U<7> {
    type Output = U<25>;
    const VALUE: usize = 25;

    proof fn lemma_output() {
    }
}

impl Max<U<26>> for U<7> {
    type Output = U<26>;
    const VALUE: usize = 26;

    proof fn lemma_output() {
    }
}

impl Max<U<27>> for U<7> {
    type Output = U<27>;
    const VALUE: usize = 27;

    proof fn lemma_output() {
    }
}

impl Max<U<28>> for U<7> {
    type Output = U<28>;
    const VALUE: usize = 28;

    proof fn lemma_output() {
    }
}

impl Max<U<29>> for U<7> {
    type Output = U<29>;
    const VALUE: usize = 29;

    proof fn lemma_output() {
    }
}

impl Max<U<30>> for U<7> {
    type Output = U<30>;
    const VALUE: usize = 30;

    proof fn lemma_output() {
    }
}

impl Max<U<31>> for U<7> {
    type Output = U<31>;
    const VALUE: usize = 31;

    proof fn lemma_output() {
    }
}

impl Max<U<0>> for U<8> {
    type Output = U<8>;
    const VALUE: usize = 8;

    proof fn lemma_output() {
    }
}

impl Max<U<1>> for U<8> {
    type Output = U<8>;
    const VALUE: usize = 8;

    proof fn lemma_output() {
    }
}

impl Max<U<2>> for U<8> {
    type Output = U<8>;
    const VALUE: usize = 8;

    proof fn lemma_output() {
    }
}

impl Max<U<3>> for U<8> {
    type Output = U<8>;
    const VALUE: usize = 8;

    proof fn lemma_output() {
    }
}

impl Max<U<4>> for U<8> {
    type Output = U<8>;
    const VALUE: usize = 8;

    proof fn lemma_output() {
    }
}

impl Max<U<5>> for U<8> {
    type Output = U<8>;
    const VALUE: usize = 8;

    proof fn lemma_output() {
    }
}

impl Max<U<6>> for U<8> {
    type Output = U<8>;
    const VALUE: usize = 8;

    proof fn lemma_output() {
    }
}

impl Max<U<7>> for U<8> {
    type Output = U<8>;
    const VALUE: usize = 8;

    proof fn lemma_output() {
    }
}

impl Max<U<8>> for U<8> {
    type Output = U<8>;
    const VALUE: usize = 8;

    proof fn lemma_output() {
    }
}

impl Max<U<9>> for U<8> {
    type Output = U<9>;
    const VALUE: usize = 9;

    proof fn lemma_output() {
    }
}

impl Max<U<10>> for U<8> {
    type Output = U<10>;
    const VALUE: usize = 10;

    proof fn lemma_output() {
    }
}

impl Max<U<11>> for U<8> {
    type Output = U<11>;
    const VALUE: usize = 11;

    proof fn lemma_output() {
    }
}

impl Max<U<12>> for U<8> {
    type Output = U<12>;
    const VALUE: usize = 12;

    proof fn lemma_output() {
    }
}

impl Max<U<13>> for U<8> {
    type Output = U<13>;
    const VALUE: usize = 13;

    proof fn lemma_output() {
    }
}

impl Max<U<14>> for U<8> {
    type Output = U<14>;
    const VALUE: usize = 14;

    proof fn lemma_output() {
    }
}

impl Max<U<15>> for U<8> {
    type Output = U<15>;
    const VALUE: usize = 15;

    proof fn lemma_output() {
    }
}

impl Max<U<16>> for U<8> {
    type Output = U<16>;
    const VALUE: usize = 16;

    proof fn lemma_output() {
    }
}

impl Max<U<17>> for U<8> {
    type Output = U<17>;
    const VALUE: usize = 17;

    proof fn lemma_output() {
    }
}

impl Max<U<18>> for U<8> {
    type Output = U<18>;
    const VALUE: usize = 18;

    proof fn lemma_output() {
    }
}

impl Max<U<19>> for U<8> {
    type Output = U<19>;
    const VALUE: usize = 19;

    proof fn lemma_output() {
    }
}

impl Max<U<20>> for U<8> {
    type Output = U<20>;
    const VALUE: usize = 20;

    proof fn lemma_output() {
    }
}

impl Max<U<21>> for U<8> {
    type Output = U<21>;
    const VALUE: usize = 21;

    proof fn lemma_output() {
    }
}

impl Max<U<22>> for U<8> {
    type Output = U<22>;
    const VALUE: usize = 22;

    proof fn lemma_output() {
    }
}

impl Max<U<23>> for U<8> {
    type Output = U<23>;
    const VALUE: usize = 23;

    proof fn lemma_output() {
    }
}

impl Max<U<24>> for U<8> {
    type Output = U<24>;
    const VALUE: usize = 24;

    proof fn lemma_output() {
    }
}

impl Max<U<25>> for U<8> {
    type Output = U<25>;
    const VALUE: usize = 25;

    proof fn lemma_output() {
    }
}

impl Max<U<26>> for U<8> {
    type Output = U<26>;
    const VALUE: usize = 26;

    proof fn lemma_output() {
    }
}

impl Max<U<27>> for U<8> {
    type Output = U<27>;
    const VALUE: usize = 27;

    proof fn lemma_output() {
    }
}

impl Max<U<28>> for U<8> {
    type Output = U<28>;
    const VALUE: usize = 28;

    proof fn lemma_output() {
    }
}

impl Max<U<29>> for U<8> {
    type Output = U<29>;
    const VALUE: usize = 29;

    proof fn lemma_output() {
    }
}

impl Max<U<30>> for U<8> {
    type Output = U<30>;
    const VALUE: usize = 30;

    proof fn lemma_output() {
    }
}

impl Max<U<31>> for U<8> {
    type Output = U<31>;
    const VALUE: usize = 31;

    proof fn lemma_output() {
    }
}

impl Max<U<0>> for U<9> {
    type Output = U<9>;
    const VALUE: usize = 9;

    proof fn lemma_output() {
    }
}

impl Max<U<1>> for U<9> {
    type Output = U<9>;
    const VALUE: usize = 9;

    proof fn lemma_output() {
    }
}

impl Max<U<2>> for U<9> {
    type Output = U<9>;
    const VALUE: usize = 9;

    proof fn lemma_output() {
    }
}

impl Max<U<3>> for U<9> {
    type Output = U<9>;
    const VALUE: usize = 9;

    proof fn lemma_output() {
    }
}

impl Max<U<4>> for U<9> {
    type Output = U<9>;
    const VALUE: usize = 9;

    proof fn lemma_output() {
    }
}

impl Max<U<5>> for U<9> {
    type Output = U<9>;
    const VALUE: usize = 9;

    proof fn lemma_output() {
    }
}

impl Max<U<6>> for U<9> {
    type Output = U<9>;
    const VALUE: usize = 9;

    proof fn lemma_output() {
    }
}

impl Max<U<7>> for U<9> {
    type Output = U<9>;
    const VALUE: usize = 9;

    proof fn lemma_output() {
    }
}

impl Max<U<8>> for U<9> {
    type Output = U<9>;
    const VALUE: usize = 9;

    proof fn lemma_output() {
    }
}

impl Max<U<9>> for U<9> {
    type Output = U<9>;
    const VALUE: usize = 9;

    proof fn lemma_output() {
    }
}

impl Max<U<10>> for U<9> {
    type Output = U<10>;
    const VALUE: usize = 10;

    proof fn lemma_output() {
    }
}

impl Max<U<11>> for U<9> {
    type Output = U<11>;
    const VALUE: usize = 11;

    proof fn lemma_output() {
    }
}

impl Max<U<12>> for U<9> {
    type Output = U<12>;
    const VALUE: usize = 12;

    proof fn lemma_output() {
    }
}

impl Max<U<13>> for U<9> {
    type Output = U<13>;
    const VALUE: usize = 13;

    proof fn lemma_output() {
    }
}

impl Max<U<14>> for U<9> {
    type Output = U<14>;
    const VALUE: usize = 14;

    proof fn lemma_output() {
    }
}

impl Max<U<15>> for U<9> {
    type Output = U<15>;
    const VALUE: usize = 15;

    proof fn lemma_output() {
    }
}

impl Max<U<16>> for U<9> {
    type Output = U<16>;
    const VALUE: usize = 16;

    proof fn lemma_output() {
    }
}

impl Max<U<17>> for U<9> {
    type Output = U<17>;
    const VALUE: usize = 17;

    proof fn lemma_output() {
    }
}

impl Max<U<18>> for U<9> {
    type Output = U<18>;
    const VALUE: usize = 18;

    proof fn lemma_output() {
    }
}

impl Max<U<19>> for U<9> {
    type Output = U<19>;
    const VALUE: usize = 19;

    proof fn lemma_output() {
    }
}

impl Max<U<20>> for U<9> {
    type Output = U<20>;
    const VALUE: usize = 20;

    proof fn lemma_output() {
    }
}

impl Max<U<21>> for U<9> {
    type Output = U<21>;
    const VALUE: usize = 21;

    proof fn lemma_output() {
    }
}

impl Max<U<22>> for U<9> {
    type Output = U<22>;
    const VALUE: usize = 22;

    proof fn lemma_output() {
    }
}

impl Max<U<23>> for U<9> {
    type Output = U<23>;
    const VALUE: usize = 23;

    proof fn lemma_output() {
    }
}

impl Max<U<24>> for U<9> {
    type Output = U<24>;
    const VALUE: usize = 24;

    proof fn lemma_output() {
    }
}

impl Max<U<25>> for U<9> {
    type Output = U<25>;
    const VALUE: usize = 25;

    proof fn lemma_output() {
    }
}

impl Max<U<26>> for U<9> {
    type Output = U<26>;
    const VALUE: usize = 26;

    proof fn lemma_output() {
    }
}

impl Max<U<27>> for U<9> {
    type Output = U<27>;
    const VALUE: usize = 27;

    proof fn lemma_output() {
    }
}

impl Max<U<28>> for U<9> {
    type Output = U<28>;
    const VALUE: usize = 28;

    proof fn lemma_output() {
    }
}

impl Max<U<29>> for U<9> {
    type Output = U<29>;
    const VALUE: usize = 29;

    proof fn lemma_output() {
    }
}

impl Max<U<30>> for U<9> {
    type Output = U<30>;
    const VALUE: usize = 30;

    proof fn lemma_output() {
    }
}

impl Max<U<31>> for U<9> {
    type Output = U<31>;
    const VALUE: usize = 31;

    proof fn lemma_output() {
    }
}

impl Max<U<0>> for U<10> {
    type Output = U<10>;
    const VALUE: usize = 10;

    proof fn lemma_output() {
    }
}

impl Max<U<1>> for U<10> {
    type Output = U<10>;
    const VALUE: usize = 10;

    proof fn lemma_output() {
    }
}

impl Max<U<2>> for U<10> {
    type Output = U<10>;
    const VALUE: usize = 10;

    proof fn lemma_output() {
    }
}

impl Max<U<3>> for U<10> {
    type Output = U<10>;
    const VALUE: usize = 10;

    proof fn lemma_output() {
    }
}

impl Max<U<4>> for U<10> {
    type Output = U<10>;
    const VALUE: usize = 10;

    proof fn lemma_output() {
    }
}

impl Max<U<5>> for U<10> {
    type Output = U<10>;
    const VALUE: usize = 10;

    proof fn lemma_output() {
    }
}

impl Max<U<6>> for U<10> {
    type Output = U<10>;
    const VALUE: usize = 10;

    proof fn lemma_output() {
    }
}

impl Max<U<7>> for U<10> {
    type Output = U<10>;
    const VALUE: usize = 10;

    proof fn lemma_output() {
    }
}

impl Max<U<8>> for U<10> {
    type Output = U<10>;
    const VALUE: usize = 10;

    proof fn lemma_output() {
    }
}

impl Max<U<9>> for U<10> {
    type Output = U<10>;
    const VALUE: usize = 10;

    proof fn lemma_output() {
    }
}

impl Max<U<10>> for U<10> {
    type Output = U<10>;
    const VALUE: usize = 10;

    proof fn lemma_output() {
    }
}

impl Max<U<11>> for U<10> {
    type Output = U<11>;
    const VALUE: usize = 11;

    proof fn lemma_output() {
    }
}

impl Max<U<12>> for U<10> {
    type Output = U<12>;
    const VALUE: usize = 12;

    proof fn lemma_output() {
    }
}

impl Max<U<13>> for U<10> {
    type Output = U<13>;
    const VALUE: usize = 13;

    proof fn lemma_output() {
    }
}

impl Max<U<14>> for U<10> {
    type Output = U<14>;
    const VALUE: usize = 14;

    proof fn lemma_output() {
    }
}

impl Max<U<15>> for U<10> {
    type Output = U<15>;
    const VALUE: usize = 15;

    proof fn lemma_output() {
    }
}

impl Max<U<16>> for U<10> {
    type Output = U<16>;
    const VALUE: usize = 16;

    proof fn lemma_output() {
    }
}

impl Max<U<17>> for U<10> {
    type Output = U<17>;
    const VALUE: usize = 17;

    proof fn lemma_output() {
    }
}

impl Max<U<18>> for U<10> {
    type Output = U<18>;
    const VALUE: usize = 18;

    proof fn lemma_output() {
    }
}

impl Max<U<19>> for U<10> {
    type Output = U<19>;
    const VALUE: usize = 19;

    proof fn lemma_output() {
    }
}

impl Max<U<20>> for U<10> {
    type Output = U<20>;
    const VALUE: usize = 20;

    proof fn lemma_output() {
    }
}

impl Max<U<21>> for U<10> {
    type Output = U<21>;
    const VALUE: usize = 21;

    proof fn lemma_output() {
    }
}

impl Max<U<22>> for U<10> {
    type Output = U<22>;
    const VALUE: usize = 22;

    proof fn lemma_output() {
    }
}

impl Max<U<23>> for U<10> {
    type Output = U<23>;
    const VALUE: usize = 23;

    proof fn lemma_output() {
    }
}

impl Max<U<24>> for U<10> {
    type Output = U<24>;
    const VALUE: usize = 24;

    proof fn lemma_output() {
    }
}

impl Max<U<25>> for U<10> {
    type Output = U<25>;
    const VALUE: usize = 25;

    proof fn lemma_output() {
    }
}

impl Max<U<26>> for U<10> {
    type Output = U<26>;
    const VALUE: usize = 26;

    proof fn lemma_output() {
    }
}

impl Max<U<27>> for U<10> {
    type Output = U<27>;
    const VALUE: usize = 27;

    proof fn lemma_output() {
    }
}

impl Max<U<28>> for U<10> {
    type Output = U<28>;
    const VALUE: usize = 28;

    proof fn lemma_output() {
    }
}

impl Max<U<29>> for U<10> {
    type Output = U<29>;
    const VALUE: usize = 29;

    proof fn lemma_output() {
    }
}

impl Max<U<30>> for U<10> {
    type Output = U<30>;
    const VALUE: usize = 30;

    proof fn lemma_output() {
    }
}

impl Max<U<31>> for U<10> {
    type Output = U<31>;
    const VALUE: usize = 31;

    proof fn lemma_output() {
    }
}

impl Max<U<0>> for U<11> {
    type Output = U<11>;
    const VALUE: usize = 11;

    proof fn lemma_output() {
    }
}

impl Max<U<1>> for U<11> {
    type Output = U<11>;
    const VALUE: usize = 11;

    proof fn lemma_output() {
    }
}

impl Max<U<2>> for U<11> {
    type Output = U<11>;
    const VALUE: usize = 11;

    proof fn lemma_output() {
    }
}

impl Max<U<3>> for U<11> {
    type Output = U<11>;
    const VALUE: usize = 11;

    proof fn lemma_output() {
    }
}

impl Max<U<4>> for U<11> {
    type Output = U<11>;
    const VALUE: usize = 11;

    proof fn lemma_output() {
    }
}

impl Max<U<5>> for U<11> {
    type Output = U<11>;
    const VALUE: usize = 11;

    proof fn lemma_output() {
    }
}

impl Max<U<6>> for U<11> {
    type Output = U<11>;
    const VALUE: usize = 11;

    proof fn lemma_output() {
    }
}

impl Max<U<7>> for U<11> {
    type Output = U<11>;
    const VALUE: usize = 11;

    proof fn lemma_output() {
    }
}

impl Max<U<8>> for U<11> {
    type Output = U<11>;
    const VALUE: usize = 11;

    proof fn lemma_output() {
    }
}

impl Max<U<9>> for U<11> {
    type Output = U<11>;
    const VALUE: usize = 11;

    proof fn lemma_output() {
    }
}

impl Max<U<10>> for U<11> {
    type Output = U<11>;
    const VALUE: usize = 11;

    proof fn lemma_output() {
    }
}

impl Max<U<11>> for U<11> {
    type Output = U<11>;
    const VALUE: usize = 11;

    proof fn lemma_output() {
    }
}

impl Max<U<12>> for U<11> {
    type Output = U<12>;
    const VALUE: usize = 12;

    proof fn lemma_output() {
    }
}

impl Max<U<13>> for U<11> {
    type Output = U<13>;
    const VALUE: usize = 13;

    proof fn lemma_output() {
    }
}

impl Max<U<14>> for U<11> {
    type Output = U<14>;
    const VALUE: usize = 14;

    proof fn lemma_output() {
    }
}

impl Max<U<15>> for U<11> {
    type Output = U<15>;
    const VALUE: usize = 15;

    proof fn lemma_output() {
    }
}

impl Max<U<16>> for U<11> {
    type Output = U<16>;
    const VALUE: usize = 16;

    proof fn lemma_output() {
    }
}

impl Max<U<17>> for U<11> {
    type Output = U<17>;
    const VALUE: usize = 17;

    proof fn lemma_output() {
    }
}

impl Max<U<18>> for U<11> {
    type Output = U<18>;
    const VALUE: usize = 18;

    proof fn lemma_output() {
    }
}

impl Max<U<19>> for U<11> {
    type Output = U<19>;
    const VALUE: usize = 19;

    proof fn lemma_output() {
    }
}

impl Max<U<20>> for U<11> {
    type Output = U<20>;
    const VALUE: usize = 20;

    proof fn lemma_output() {
    }
}

impl Max<U<21>> for U<11> {
    type Output = U<21>;
    const VALUE: usize = 21;

    proof fn lemma_output() {
    }
}

impl Max<U<22>> for U<11> {
    type Output = U<22>;
    const VALUE: usize = 22;

    proof fn lemma_output() {
    }
}

impl Max<U<23>> for U<11> {
    type Output = U<23>;
    const VALUE: usize = 23;

    proof fn lemma_output() {
    }
}

impl Max<U<24>> for U<11> {
    type Output = U<24>;
    const VALUE: usize = 24;

    proof fn lemma_output() {
    }
}

impl Max<U<25>> for U<11> {
    type Output = U<25>;
    const VALUE: usize = 25;

    proof fn lemma_output() {
    }
}

impl Max<U<26>> for U<11> {
    type Output = U<26>;
    const VALUE: usize = 26;

    proof fn lemma_output() {
    }
}

impl Max<U<27>> for U<11> {
    type Output = U<27>;
    const VALUE: usize = 27;

    proof fn lemma_output() {
    }
}

impl Max<U<28>> for U<11> {
    type Output = U<28>;
    const VALUE: usize = 28;

    proof fn lemma_output() {
    }
}

impl Max<U<29>> for U<11> {
    type Output = U<29>;
    const VALUE: usize = 29;

    proof fn lemma_output() {
    }
}

impl Max<U<30>> for U<11> {
    type Output = U<30>;
    const VALUE: usize = 30;

    proof fn lemma_output() {
    }
}

impl Max<U<31>> for U<11> {
    type Output = U<31>;
    const VALUE: usize = 31;

    proof fn lemma_output() {
    }
}

impl Max<U<0>> for U<12> {
    type Output = U<12>;
    const VALUE: usize = 12;

    proof fn lemma_output() {
    }
}

impl Max<U<1>> for U<12> {
    type Output = U<12>;
    const VALUE: usize = 12;

    proof fn lemma_output() {
    }
}

impl Max<U<2>> for U<12> {
    type Output = U<12>;
    const VALUE: usize = 12;

    proof fn lemma_output() {
    }
}

impl Max<U<3>> for U<12> {
    type Output = U<12>;
    const VALUE: usize = 12;

    proof fn lemma_output() {
    }
}

impl Max<U<4>> for U<12> {
    type Output = U<12>;
    const VALUE: usize = 12;

    proof fn lemma_output() {
    }
}

impl Max<U<5>> for U<12> {
    type Output = U<12>;
    const VALUE: usize = 12;

    proof fn lemma_output() {
    }
}

impl Max<U<6>> for U<12> {
    type Output = U<12>;
    const VALUE: usize = 12;

    proof fn lemma_output() {
    }
}

impl Max<U<7>> for U<12> {
    type Output = U<12>;
    const VALUE: usize = 12;

    proof fn lemma_output() {
    }
}

impl Max<U<8>> for U<12> {
    type Output = U<12>;
    const VALUE: usize = 12;

    proof fn lemma_output() {
    }
}

impl Max<U<9>> for U<12> {
    type Output = U<12>;
    const VALUE: usize = 12;

    proof fn lemma_output() {
    }
}

impl Max<U<10>> for U<12> {
    type Output = U<12>;
    const VALUE: usize = 12;

    proof fn lemma_output() {
    }
}

impl Max<U<11>> for U<12> {
    type Output = U<12>;
    const VALUE: usize = 12;

    proof fn lemma_output() {
    }
}

impl Max<U<12>> for U<12> {
    type Output = U<12>;
    const VALUE: usize = 12;

    proof fn lemma_output() {
    }
}

impl Max<U<13>> for U<12> {
    type Output = U<13>;
    const VALUE: usize = 13;

    proof fn lemma_output() {
    }
}

impl Max<U<14>> for U<12> {
    type Output = U<14>;
    const VALUE: usize = 14;

    proof fn lemma_output() {
    }
}

impl Max<U<15>> for U<12> {
    type Output = U<15>;
    const VALUE: usize = 15;

    proof fn lemma_output() {
    }
}

impl Max<U<16>> for U<12> {
    type Output = U<16>;
    const VALUE: usize = 16;

    proof fn lemma_output() {
    }
}

impl Max<U<17>> for U<12> {
    type Output = U<17>;
    const VALUE: usize = 17;

    proof fn lemma_output() {
    }
}

impl Max<U<18>> for U<12> {
    type Output = U<18>;
    const VALUE: usize = 18;

    proof fn lemma_output() {
    }
}

impl Max<U<19>> for U<12> {
    type Output = U<19>;
    const VALUE: usize = 19;

    proof fn lemma_output() {
    }
}

impl Max<U<20>> for U<12> {
    type Output = U<20>;
    const VALUE: usize = 20;

    proof fn lemma_output() {
    }
}

impl Max<U<21>> for U<12> {
    type Output = U<21>;
    const VALUE: usize = 21;

    proof fn lemma_output() {
    }
}

impl Max<U<22>> for U<12> {
    type Output = U<22>;
    const VALUE: usize = 22;

    proof fn lemma_output() {
    }
}

impl Max<U<23>> for U<12> {
    type Output = U<23>;
    const VALUE: usize = 23;

    proof fn lemma_output() {
    }
}

impl Max<U<24>> for U<12> {
    type Output = U<24>;
    const VALUE: usize = 24;

    proof fn lemma_output() {
    }
}

impl Max<U<25>> for U<12> {
    type Output = U<25>;
    const VALUE: usize = 25;

    proof fn lemma_output() {
    }
}

impl Max<U<26>> for U<12> {
    type Output = U<26>;
    const VALUE: usize = 26;

    proof fn lemma_output() {
    }
}

impl Max<U<27>> for U<12> {
    type Output = U<27>;
    const VALUE: usize = 27;

    proof fn lemma_output() {
    }
}

impl Max<U<28>> for U<12> {
    type Output = U<28>;
    const VALUE: usize = 28;

    proof fn lemma_output() {
    }
}

impl Max<U<29>> for U<12> {
    type Output = U<29>;
    const VALUE: usize = 29;

    proof fn lemma_output() {
    }
}

impl Max<U<30>> for U<12> {
    type Output = U<30>;
    const VALUE: usize = 30;

    proof fn lemma_output() {
    }
}

impl Max<U<31>> for U<12> {
    type Output = U<31>;
    const VALUE: usize = 31;

    proof fn lemma_output() {
    }
}

impl Max<U<0>> for U<13> {
    type Output = U<13>;
    const VALUE: usize = 13;

    proof fn lemma_output() {
    }
}

impl Max<U<1>> for U<13> {
    type Output = U<13>;
    const VALUE: usize = 13;

    proof fn lemma_output() {
    }
}

impl Max<U<2>> for U<13> {
    type Output = U<13>;
    const VALUE: usize = 13;

    proof fn lemma_output() {
    }
}

impl Max<U<3>> for U<13> {
    type Output = U<13>;
    const VALUE: usize = 13;

    proof fn lemma_output() {
    }
}

impl Max<U<4>> for U<13> {
    type Output = U<13>;
    const VALUE: usize = 13;

    proof fn lemma_output() {
    }
}

impl Max<U<5>> for U<13> {
    type Output = U<13>;
    const VALUE: usize = 13;

    proof fn lemma_output() {
    }
}

impl Max<U<6>> for U<13> {
    type Output = U<13>;
    const VALUE: usize = 13;

    proof fn lemma_output() {
    }
}

impl Max<U<7>> for U<13> {
    type Output = U<13>;
    const VALUE: usize = 13;

    proof fn lemma_output() {
    }
}

impl Max<U<8>> for U<13> {
    type Output = U<13>;
    const VALUE: usize = 13;

    proof fn lemma_output() {
    }
}

impl Max<U<9>> for U<13> {
    type Output = U<13>;
    const VALUE: usize = 13;

    proof fn lemma_output() {
    }
}

impl Max<U<10>> for U<13> {
    type Output = U<13>;
    const VALUE: usize = 13;

    proof fn lemma_output() {
    }
}

impl Max<U<11>> for U<13> {
    type Output = U<13>;
    const VALUE: usize = 13;

    proof fn lemma_output() {
    }
}

impl Max<U<12>> for U<13> {
    type Output = U<13>;
    const VALUE: usize = 13;

    proof fn lemma_output() {
    }
}

impl Max<U<13>> for U<13> {
    type Output = U<13>;
    const VALUE: usize = 13;

    proof fn lemma_output() {
    }
}

impl Max<U<14>> for U<13> {
    type Output = U<14>;
    const VALUE: usize = 14;

    proof fn lemma_output() {
    }
}

impl Max<U<15>> for U<13> {
    type Output = U<15>;
    const VALUE: usize = 15;

    proof fn lemma_output() {
    }
}

impl Max<U<16>> for U<13> {
    type Output = U<16>;
    const VALUE: usize = 16;

    proof fn lemma_output() {
    }
}

impl Max<U<17>> for U<13> {
    type Output = U<17>;
    const VALUE: usize = 17;

    proof fn lemma_output() {
    }
}

impl Max<U<18>> for U<13> {
    type Output = U<18>;
    const VALUE: usize = 18;

    proof fn lemma_output() {
    }
}

impl Max<U<19>> for U<13> {
    type Output = U<19>;
    const VALUE: usize = 19;

    proof fn lemma_output() {
    }
}

impl Max<U<20>> for U<13> {
    type Output = U<20>;
    const VALUE: usize = 20;

    proof fn lemma_output() {
    }
}

impl Max<U<21>> for U<13> {
    type Output = U<21>;
    const VALUE: usize = 21;

    proof fn lemma_output() {
    }
}

impl Max<U<22>> for U<13> {
    type Output = U<22>;
    const VALUE: usize = 22;

    proof fn lemma_output() {
    }
}

impl Max<U<23>> for U<13> {
    type Output = U<23>;
    const VALUE: usize = 23;

    proof fn lemma_output() {
    }
}

impl Max<U<24>> for U<13> {
    type Output = U<24>;
    const VALUE: usize = 24;

    proof fn lemma_output() {
    }
}

impl Max<U<25>> for U<13> {
    type Output = U<25>;
    const VALUE: usize = 25;

    proof fn lemma_output() {
    }
}

impl Max<U<26>> for U<13> {
    type Output = U<26>;
    const VALUE: usize = 26;

    proof fn lemma_output() {
    }
}

impl Max<U<27>> for U<13> {
    type Output = U<27>;
    const VALUE: usize = 27;

    proof fn lemma_output() {
    }
}

impl Max<U<28>> for U<13> {
    type Output = U<28>;
    const VALUE: usize = 28;

    proof fn lemma_output() {
    }
}

impl Max<U<29>> for U<13> {
    type Output = U<29>;
    const VALUE: usize = 29;

    proof fn lemma_output() {
    }
}

impl Max<U<30>> for U<13> {
    type Output = U<30>;
    const VALUE: usize = 30;

    proof fn lemma_output() {
    }
}

impl Max<U<31>> for U<13> {
    type Output = U<31>;
    const VALUE: usize = 31;

    proof fn lemma_output() {
    }
}

impl Max<U<0>> for U<14> {
    type Output = U<14>;
    const VALUE: usize = 14;

    proof fn lemma_output() {
    }
}

impl Max<U<1>> for U<14> {
    type Output = U<14>;
    const VALUE: usize = 14;

    proof fn lemma_output() {
    }
}

impl Max<U<2>> for U<14> {
    type Output = U<14>;
    const VALUE: usize = 14;

    proof fn lemma_output() {
    }
}

impl Max<U<3>> for U<14> {
    type Output = U<14>;
    const VALUE: usize = 14;

    proof fn lemma_output() {
    }
}

impl Max<U<4>> for U<14> {
    type Output = U<14>;
    const VALUE: usize = 14;

    proof fn lemma_output() {
    }
}

impl Max<U<5>> for U<14> {
    type Output = U<14>;
    const VALUE: usize = 14;

    proof fn lemma_output() {
    }
}

impl Max<U<6>> for U<14> {
    type Output = U<14>;
    const VALUE: usize = 14;

    proof fn lemma_output() {
    }
}

impl Max<U<7>> for U<14> {
    type Output = U<14>;
    const VALUE: usize = 14;

    proof fn lemma_output() {
    }
}

impl Max<U<8>> for U<14> {
    type Output = U<14>;
    const VALUE: usize = 14;

    proof fn lemma_output() {
    }
}

impl Max<U<9>> for U<14> {
    type Output = U<14>;
    const VALUE: usize = 14;

    proof fn lemma_output() {
    }
}

impl Max<U<10>> for U<14> {
    type Output = U<14>;
    const VALUE: usize = 14;

    proof fn lemma_output() {
    }
}

impl Max<U<11>> for U<14> {
    type Output = U<14>;
    const VALUE: usize = 14;

    proof fn lemma_output() {
    }
}

impl Max<U<12>> for U<14> {
    type Output = U<14>;
    const VALUE: usize = 14;

    proof fn lemma_output() {
    }
}

impl Max<U<13>> for U<14> {
    type Output = U<14>;
    const VALUE: usize = 14;

    proof fn lemma_output() {
    }
}

impl Max<U<14>> for U<14> {
    type Output = U<14>;
    const VALUE: usize = 14;

    proof fn lemma_output() {
    }
}

impl Max<U<15>> for U<14> {
    type Output = U<15>;
    const VALUE: usize = 15;

    proof fn lemma_output() {
    }
}

impl Max<U<16>> for U<14> {
    type Output = U<16>;
    const VALUE: usize = 16;

    proof fn lemma_output() {
    }
}

impl Max<U<17>> for U<14> {
    type Output = U<17>;
    const VALUE: usize = 17;

    proof fn lemma_output() {
    }
}

impl Max<U<18>> for U<14> {
    type Output = U<18>;
    const VALUE: usize = 18;

    proof fn lemma_output() {
    }
}

impl Max<U<19>> for U<14> {
    type Output = U<19>;
    const VALUE: usize = 19;

    proof fn lemma_output() {
    }
}

impl Max<U<20>> for U<14> {
    type Output = U<20>;
    const VALUE: usize = 20;

    proof fn lemma_output() {
    }
}

impl Max<U<21>> for U<14> {
    type Output = U<21>;
    const VALUE: usize = 21;

    proof fn lemma_output() {
    }
}

impl Max<U<22>> for U<14> {
    type Output = U<22>;
    const VALUE: usize = 22;

    proof fn lemma_output() {
    }
}

impl Max<U<23>> for U<14> {
    type Output = U<23>;
    const VALUE: usize = 23;

    proof fn lemma_output() {
    }
}

impl Max<U<24>> for U<14> {
    type Output = U<24>;
    const VALUE: usize = 24;

    proof fn lemma_output() {
    }
}

impl Max<U<25>> for U<14> {
    type Output = U<25>;
    const VALUE: usize = 25;

    proof fn lemma_output() {
    }
}

impl Max<U<26>> for U<14> {
    type Output = U<26>;
    const VALUE: usize = 26;

    proof fn lemma_output() {
    }
}

impl Max<U<27>> for U<14> {
    type Output = U<27>;
    const VALUE: usize = 27;

    proof fn lemma_output() {
    }
}

impl Max<U<28>> for U<14> {
    type Output = U<28>;
    const VALUE: usize = 28;

    proof fn lemma_output() {
    }
}

impl Max<U<29>> for U<14> {
    type Output = U<29>;
    const VALUE: usize = 29;

    proof fn lemma_output() {
    }
}

impl Max<U<30>> for U<14> {
    type Output = U<30>;
    const VALUE: usize = 30;

    proof fn lemma_output() {
    }
}

impl Max<U<31>> for U<14> {
    type Output = U<31>;
    const VALUE: usize = 31;

    proof fn lemma_output() {
    }
}

impl Max<U<0>> for U<15> {
    type Output = U<15>;
    const VALUE: usize = 15;

    proof fn lemma_output() {
    }
}

impl Max<U<1>> for U<15> {
    type Output = U<15>;
    const VALUE: usize = 15;

    proof fn lemma_output() {
    }
}

impl Max<U<2>> for U<15> {
    type Output = U<15>;
    const VALUE: usize = 15;

    proof fn lemma_output() {
    }
}

impl Max<U<3>> for U<15> {
    type Output = U<15>;
    const VALUE: usize = 15;

    proof fn lemma_output() {
    }
}

impl Max<U<4>> for U<15> {
    type Output = U<15>;
    const VALUE: usize = 15;

    proof fn lemma_output() {
    }
}

impl Max<U<5>> for U<15> {
    type Output = U<15>;
    const VALUE: usize = 15;

    proof fn lemma_output() {
    }
}

impl Max<U<6>> for U<15> {
    type Output = U<15>;
    const VALUE: usize = 15;

    proof fn lemma_output() {
    }
}

impl Max<U<7>> for U<15> {
    type Output = U<15>;
    const VALUE: usize = 15;

    proof fn lemma_output() {
    }
}

impl Max<U<8>> for U<15> {
    type Output = U<15>;
    const VALUE: usize = 15;

    proof fn lemma_output() {
    }
}

impl Max<U<9>> for U<15> {
    type Output = U<15>;
    const VALUE: usize = 15;

    proof fn lemma_output() {
    }
}

impl Max<U<10>> for U<15> {
    type Output = U<15>;
    const VALUE: usize = 15;

    proof fn lemma_output() {
    }
}

impl Max<U<11>> for U<15> {
    type Output = U<15>;
    const VALUE: usize = 15;

    proof fn lemma_output() {
    }
}

impl Max<U<12>> for U<15> {
    type Output = U<15>;
    const VALUE: usize = 15;

    proof fn lemma_output() {
    }
}

impl Max<U<13>> for U<15> {
    type Output = U<15>;
    const VALUE: usize = 15;

    proof fn lemma_output() {
    }
}

impl Max<U<14>> for U<15> {
    type Output = U<15>;
    const VALUE: usize = 15;

    proof fn lemma_output() {
    }
}

impl Max<U<15>> for U<15> {
    type Output = U<15>;
    const VALUE: usize = 15;

    proof fn lemma_output() {
    }
}

impl Max<U<16>> for U<15> {
    type Output = U<16>;
    const VALUE: usize = 16;

    proof fn lemma_output() {
    }
}

impl Max<U<17>> for U<15> {
    type Output = U<17>;
    const VALUE: usize = 17;

    proof fn lemma_output() {
    }
}

impl Max<U<18>> for U<15> {
    type Output = U<18>;
    const VALUE: usize = 18;

    proof fn lemma_output() {
    }
}

impl Max<U<19>> for U<15> {
    type Output = U<19>;
    const VALUE: usize = 19;

    proof fn lemma_output() {
    }
}

impl Max<U<20>> for U<15> {
    type Output = U<20>;
    const VALUE: usize = 20;

    proof fn lemma_output() {
    }
}

impl Max<U<21>> for U<15> {
    type Output = U<21>;
    const VALUE: usize = 21;

    proof fn lemma_output() {
    }
}

impl Max<U<22>> for U<15> {
    type Output = U<22>;
    const VALUE: usize = 22;

    proof fn lemma_output() {
    }
}

impl Max<U<23>> for U<15> {
    type Output = U<23>;
    const VALUE: usize = 23;

    proof fn lemma_output() {
    }
}

impl Max<U<24>> for U<15> {
    type Output = U<24>;
    const VALUE: usize = 24;

    proof fn lemma_output() {
    }
}

impl Max<U<25>> for U<15> {
    type Output = U<25>;
    const VALUE: usize = 25;

    proof fn lemma_output() {
    }
}

impl Max<U<26>> for U<15> {
    type Output = U<26>;
    const VALUE: usize = 26;

    proof fn lemma_output() {
    }
}

impl Max<U<27>> for U<15> {
    type Output = U<27>;
    const VALUE: usize = 27;

    proof fn lemma_output() {
    }
}

impl Max<U<28>> for U<15> {
    type Output = U<28>;
    const VALUE: usize = 28;

    proof fn lemma_output() {
    }
}

impl Max<U<29>> for U<15> {
    type Output = U<29>;
    const VALUE: usize = 29;

    proof fn lemma_output() {
    }
}

impl Max<U<30>> for U<15> {
    type Output = U<30>;
    const VALUE: usize = 30;

    proof fn lemma_output() {
    }
}

impl Max<U<31>> for U<15> {
    type Output = U<31>;
    const VALUE: usize = 31;

    proof fn lemma_output() {
    }
}

impl Max<U<0>> for U<16> {
    type Output = U<16>;
    const VALUE: usize = 16;

    proof fn lemma_output() {
    }
}

impl Max<U<1>> for U<16> {
    type Output = U<16>;
    const VALUE: usize = 16;

    proof fn lemma_output() {
    }
}

impl Max<U<2>> for U<16> {
    type Output = U<16>;
    const VALUE: usize = 16;

    proof fn lemma_output() {
    }
}

impl Max<U<3>> for U<16> {
    type Output = U<16>;
    const VALUE: usize = 16;

    proof fn lemma_output() {
    }
}

impl Max<U<4>> for U<16> {
    type Output = U<16>;
    const VALUE: usize = 16;

    proof fn lemma_output() {
    }
}

impl Max<U<5>> for U<16> {
    type Output = U<16>;
    const VALUE: usize = 16;

    proof fn lemma_output() {
    }
}

impl Max<U<6>> for U<16> {
    type Output = U<16>;
    const VALUE: usize = 16;

    proof fn lemma_output() {
    }
}

impl Max<U<7>> for U<16> {
    type Output = U<16>;
    const VALUE: usize = 16;

    proof fn lemma_output() {
    }
}

impl Max<U<8>> for U<16> {
    type Output = U<16>;
    const VALUE: usize = 16;

    proof fn lemma_output() {
    }
}

impl Max<U<9>> for U<16> {
    type Output = U<16>;
    const VALUE: usize = 16;

    proof fn lemma_output() {
    }
}

impl Max<U<10>> for U<16> {
    type Output = U<16>;
    const VALUE: usize = 16;

    proof fn lemma_output() {
    }
}

impl Max<U<11>> for U<16> {
    type Output = U<16>;
    const VALUE: usize = 16;

    proof fn lemma_output() {
    }
}

impl Max<U<12>> for U<16> {
    type Output = U<16>;
    const VALUE: usize = 16;

    proof fn lemma_output() {
    }
}

impl Max<U<13>> for U<16> {
    type Output = U<16>;
    const VALUE: usize = 16;

    proof fn lemma_output() {
    }
}

impl Max<U<14>> for U<16> {
    type Output = U<16>;
    const VALUE: usize = 16;

    proof fn lemma_output() {
    }
}

impl Max<U<15>> for U<16> {
    type Output = U<16>;
    const VALUE: usize = 16;

    proof fn lemma_output() {
    }
}

impl Max<U<16>> for U<16> {
    type Output = U<16>;
    const VALUE: usize = 16;

    proof fn lemma_output() {
    }
}

impl Max<U<17>> for U<16> {
    type Output = U<17>;
    const VALUE: usize = 17;

    proof fn lemma_output() {
    }
}

impl Max<U<18>> for U<16> {
    type Output = U<18>;
    const VALUE: usize = 18;

    proof fn lemma_output() {
    }
}

impl Max<U<19>> for U<16> {
    type Output = U<19>;
    const VALUE: usize = 19;

    proof fn lemma_output() {
    }
}

impl Max<U<20>> for U<16> {
    type Output = U<20>;
    const VALUE: usize = 20;

    proof fn lemma_output() {
    }
}

impl Max<U<21>> for U<16> {
    type Output = U<21>;
    const VALUE: usize = 21;

    proof fn lemma_output() {
    }
}

impl Max<U<22>> for U<16> {
    type Output = U<22>;
    const VALUE: usize = 22;

    proof fn lemma_output() {
    }
}

impl Max<U<23>> for U<16> {
    type Output = U<23>;
    const VALUE: usize = 23;

    proof fn lemma_output() {
    }
}

impl Max<U<24>> for U<16> {
    type Output = U<24>;
    const VALUE: usize = 24;

    proof fn lemma_output() {
    }
}

impl Max<U<25>> for U<16> {
    type Output = U<25>;
    const VALUE: usize = 25;

    proof fn lemma_output() {
    }
}

impl Max<U<26>> for U<16> {
    type Output = U<26>;
    const VALUE: usize = 26;

    proof fn lemma_output() {
    }
}

impl Max<U<27>> for U<16> {
    type Output = U<27>;
    const VALUE: usize = 27;

    proof fn lemma_output() {
    }
}

impl Max<U<28>> for U<16> {
    type Output = U<28>;
    const VALUE: usize = 28;

    proof fn lemma_output() {
    }
}

impl Max<U<29>> for U<16> {
    type Output = U<29>;
    const VALUE: usize = 29;

    proof fn lemma_output() {
    }
}

impl Max<U<30>> for U<16> {
    type Output = U<30>;
    const VALUE: usize = 30;

    proof fn lemma_output() {
    }
}

impl Max<U<31>> for U<16> {
    type Output = U<31>;
    const VALUE: usize = 31;

    proof fn lemma_output() {
    }
}

impl Max<U<0>> for U<17> {
    type Output = U<17>;
    const VALUE: usize = 17;

    proof fn lemma_output() {
    }
}

impl Max<U<1>> for U<17> {
    type Output = U<17>;
    const VALUE: usize = 17;

    proof fn lemma_output() {
    }
}

impl Max<U<2>> for U<17> {
    type Output = U<17>;
    const VALUE: usize = 17;

    proof fn lemma_output() {
    }
}

impl Max<U<3>> for U<17> {
    type Output = U<17>;
    const VALUE: usize = 17;

    proof fn lemma_output() {
    }
}

impl Max<U<4>> for U<17> {
    type Output = U<17>;
    const VALUE: usize = 17;

    proof fn lemma_output() {
    }
}

impl Max<U<5>> for U<17> {
    type Output = U<17>;
    const VALUE: usize = 17;

    proof fn lemma_output() {
    }
}

impl Max<U<6>> for U<17> {
    type Output = U<17>;
    const VALUE: usize = 17;

    proof fn lemma_output() {
    }
}

impl Max<U<7>> for U<17> {
    type Output = U<17>;
    const VALUE: usize = 17;

    proof fn lemma_output() {
    }
}

impl Max<U<8>> for U<17> {
    type Output = U<17>;
    const VALUE: usize = 17;

    proof fn lemma_output() {
    }
}

impl Max<U<9>> for U<17> {
    type Output = U<17>;
    const VALUE: usize = 17;

    proof fn lemma_output() {
    }
}

impl Max<U<10>> for U<17> {
    type Output = U<17>;
    const VALUE: usize = 17;

    proof fn lemma_output() {
    }
}

impl Max<U<11>> for U<17> {
    type Output = U<17>;
    const VALUE: usize = 17;

    proof fn lemma_output() {
    }
}

impl Max<U<12>> for U<17> {
    type Output = U<17>;
    const VALUE: usize = 17;

    proof fn lemma_output() {
    }
}

impl Max<U<13>> for U<17> {
    type Output = U<17>;
    const VALUE: usize = 17;

    proof fn lemma_output() {
    }
}

impl Max<U<14>> for U<17> {
    type Output = U<17>;
    const VALUE: usize = 17;

    proof fn lemma_output() {
    }
}

impl Max<U<15>> for U<17> {
    type Output = U<17>;
    const VALUE: usize = 17;

    proof fn lemma_output() {
    }
}

impl Max<U<16>> for U<17> {
    type Output = U<17>;
    const VALUE: usize = 17;

    proof fn lemma_output() {
    }
}

impl Max<U<17>> for U<17> {
    type Output = U<17>;
    const VALUE: usize = 17;

    proof fn lemma_output() {
    }
}

impl Max<U<18>> for U<17> {
    type Output = U<18>;
    const VALUE: usize = 18;

    proof fn lemma_output() {
    }
}

impl Max<U<19>> for U<17> {
    type Output = U<19>;
    const VALUE: usize = 19;

    proof fn lemma_output() {
    }
}

impl Max<U<20>> for U<17> {
    type Output = U<20>;
    const VALUE: usize = 20;

    proof fn lemma_output() {
    }
}

impl Max<U<21>> for U<17> {
    type Output = U<21>;
    const VALUE: usize = 21;

    proof fn lemma_output() {
    }
}

impl Max<U<22>> for U<17> {
    type Output = U<22>;
    const VALUE: usize = 22;

    proof fn lemma_output() {
    }
}

impl Max<U<23>> for U<17> {
    type Output = U<23>;
    const VALUE: usize = 23;

    proof fn lemma_output() {
    }
}

impl Max<U<24>> for U<17> {
    type Output = U<24>;
    const VALUE: usize = 24;

    proof fn lemma_output() {
    }
}

impl Max<U<25>> for U<17> {
    type Output = U<25>;
    const VALUE: usize = 25;

    proof fn lemma_output() {
    }
}

impl Max<U<26>> for U<17> {
    type Output = U<26>;
    const VALUE: usize = 26;

    proof fn lemma_output() {
    }
}

impl Max<U<27>> for U<17> {
    type Output = U<27>;
    const VALUE: usize = 27;

    proof fn lemma_output() {
    }
}

impl Max<U<28>> for U<17> {
    type Output = U<28>;
    const VALUE: usize = 28;

    proof fn lemma_output() {
    }
}

impl Max<U<29>> for U<17> {
    type Output = U<29>;
    const VALUE: usize = 29;

    proof fn lemma_output() {
    }
}

impl Max<U<30>> for U<17> {
    type Output = U<30>;
    const VALUE: usize = 30;

    proof fn lemma_output() {
    }
}

impl Max<U<31>> for U<17> {
    type Output = U<31>;
    const VALUE: usize = 31;

    proof fn lemma_output() {
    }
}

impl Max<U<0>> for U<18> {
    type Output = U<18>;
    const VALUE: usize = 18;

    proof fn lemma_output() {
    }
}

impl Max<U<1>> for U<18> {
    type Output = U<18>;
    const VALUE: usize = 18;

    proof fn lemma_output() {
    }
}

impl Max<U<2>> for U<18> {
    type Output = U<18>;
    const VALUE: usize = 18;

    proof fn lemma_output() {
    }
}

impl Max<U<3>> for U<18> {
    type Output = U<18>;
    const VALUE: usize = 18;

    proof fn lemma_output() {
    }
}

impl Max<U<4>> for U<18> {
    type Output = U<18>;
    const VALUE: usize = 18;

    proof fn lemma_output() {
    }
}

impl Max<U<5>> for U<18> {
    type Output = U<18>;
    const VALUE: usize = 18;

    proof fn lemma_output() {
    }
}

impl Max<U<6>> for U<18> {
    type Output = U<18>;
    const VALUE: usize = 18;

    proof fn lemma_output() {
    }
}

impl Max<U<7>> for U<18> {
    type Output = U<18>;
    const VALUE: usize = 18;

    proof fn lemma_output() {
    }
}

impl Max<U<8>> for U<18> {
    type Output = U<18>;
    const VALUE: usize = 18;

    proof fn lemma_output() {
    }
}

impl Max<U<9>> for U<18> {
    type Output = U<18>;
    const VALUE: usize = 18;

    proof fn lemma_output() {
    }
}

impl Max<U<10>> for U<18> {
    type Output = U<18>;
    const VALUE: usize = 18;

    proof fn lemma_output() {
    }
}

impl Max<U<11>> for U<18> {
    type Output = U<18>;
    const VALUE: usize = 18;

    proof fn lemma_output() {
    }
}

impl Max<U<12>> for U<18> {
    type Output = U<18>;
    const VALUE: usize = 18;

    proof fn lemma_output() {
    }
}

impl Max<U<13>> for U<18> {
    type Output = U<18>;
    const VALUE: usize = 18;

    proof fn lemma_output() {
    }
}

impl Max<U<14>> for U<18> {
    type Output = U<18>;
    const VALUE: usize = 18;

    proof fn lemma_output() {
    }
}

impl Max<U<15>> for U<18> {
    type Output = U<18>;
    const VALUE: usize = 18;

    proof fn lemma_output() {
    }
}

impl Max<U<16>> for U<18> {
    type Output = U<18>;
    const VALUE: usize = 18;

    proof fn lemma_output() {
    }
}

impl Max<U<17>> for U<18> {
    type Output = U<18>;
    const VALUE: usize = 18;

    proof fn lemma_output() {
    }
}

impl Max<U<18>> for U<18> {
    type Output = U<18>;
    const VALUE: usize = 18;

    proof fn lemma_output() {
    }
}

impl Max<U<19>> for U<18> {
    type Output = U<19>;
    const VALUE: usize = 19;

    proof fn lemma_output() {
    }
}

impl Max<U<20>> for U<18> {
    type Output = U<20>;
    const VALUE: usize = 20;

    proof fn lemma_output() {
    }
}

impl Max<U<21>> for U<18> {
    type Output = U<21>;
    const VALUE: usize = 21;

    proof fn lemma_output() {
    }
}

impl Max<U<22>> for U<18> {
    type Output = U<22>;
    const VALUE: usize = 22;

    proof fn lemma_output() {
    }
}

impl Max<U<23>> for U<18> {
    type Output = U<23>;
    const VALUE: usize = 23;

    proof fn lemma_output() {
    }
}

impl Max<U<24>> for U<18> {
    type Output = U<24>;
    const VALUE: usize = 24;

    proof fn lemma_output() {
    }
}

impl Max<U<25>> for U<18> {
    type Output = U<25>;
    const VALUE: usize = 25;

    proof fn lemma_output() {
    }
}

impl Max<U<26>> for U<18> {
    type Output = U<26>;
    const VALUE: usize = 26;

    proof fn lemma_output() {
    }
}

impl Max<U<27>> for U<18> {
    type Output = U<27>;
    const VALUE: usize = 27;

    proof fn lemma_output() {
    }
}

impl Max<U<28>> for U<18> {
    type Output = U<28>;
    const VALUE: usize = 28;

    proof fn lemma_output() {
    }
}

impl Max<U<29>> for U<18> {
    type Output = U<29>;
    const VALUE: usize = 29;

    proof fn lemma_output() {
    }
}

impl Max<U<30>> for U<18> {
    type Output = U<30>;
    const VALUE: usize = 30;

    proof fn lemma_output() {
    }
}

impl Max<U<31>> for U<18> {
    type Output = U<31>;
    const VALUE: usize = 31;

    proof fn lemma_output() {
    }
}

impl Max<U<0>> for U<19> {
    type Output = U<19>;
    const VALUE: usize = 19;

    proof fn lemma_output() {
    }
}

impl Max<U<1>> for U<19> {
    type Output = U<19>;
    const VALUE: usize = 19;

    proof fn lemma_output() {
    }
}

impl Max<U<2>> for U<19> {
    type Output = U<19>;
    const VALUE: usize = 19;

    proof fn lemma_output() {
    }
}

impl Max<U<3>> for U<19> {
    type Output = U<19>;
    const VALUE: usize = 19;

    proof fn lemma_output() {
    }
}

impl Max<U<4>> for U<19> {
    type Output = U<19>;
    const VALUE: usize = 19;

    proof fn lemma_output() {
    }
}

impl Max<U<5>> for U<19> {
    type Output = U<19>;
    const VALUE: usize = 19;

    proof fn lemma_output() {
    }
}

impl Max<U<6>> for U<19> {
    type Output = U<19>;
    const VALUE: usize = 19;

    proof fn lemma_output() {
    }
}

impl Max<U<7>> for U<19> {
    type Output = U<19>;
    const VALUE: usize = 19;

    proof fn lemma_output() {
    }
}

impl Max<U<8>> for U<19> {
    type Output = U<19>;
    const VALUE: usize = 19;

    proof fn lemma_output() {
    }
}

impl Max<U<9>> for U<19> {
    type Output = U<19>;
    const VALUE: usize = 19;

    proof fn lemma_output() {
    }
}

impl Max<U<10>> for U<19> {
    type Output = U<19>;
    const VALUE: usize = 19;

    proof fn lemma_output() {
    }
}

impl Max<U<11>> for U<19> {
    type Output = U<19>;
    const VALUE: usize = 19;

    proof fn lemma_output() {
    }
}

impl Max<U<12>> for U<19> {
    type Output = U<19>;
    const VALUE: usize = 19;

    proof fn lemma_output() {
    }
}

impl Max<U<13>> for U<19> {
    type Output = U<19>;
    const VALUE: usize = 19;

    proof fn lemma_output() {
    }
}

impl Max<U<14>> for U<19> {
    type Output = U<19>;
    const VALUE: usize = 19;

    proof fn lemma_output() {
    }
}

impl Max<U<15>> for U<19> {
    type Output = U<19>;
    const VALUE: usize = 19;

    proof fn lemma_output() {
    }
}

impl Max<U<16>> for U<19> {
    type Output = U<19>;
    const VALUE: usize = 19;

    proof fn lemma_output() {
    }
}

impl Max<U<17>> for U<19> {
    type Output = U<19>;
    const VALUE: usize = 19;

    proof fn lemma_output() {
    }
}

impl Max<U<18>> for U<19> {
    type Output = U<19>;
    const VALUE: usize = 19;

    proof fn lemma_output() {
    }
}

impl Max<U<19>> for U<19> {
    type Output = U<19>;
    const VALUE: usize = 19;

    proof fn lemma_output() {
    }
}

impl Max<U<20>> for U<19> {
    type Output = U<20>;
    const VALUE: usize = 20;

    proof fn lemma_output() {
    }
}

impl Max<U<21>> for U<19> {
    type Output = U<21>;
    const VALUE: usize = 21;

    proof fn lemma_output() {
    }
}

impl Max<U<22>> for U<19> {
    type Output = U<22>;
    const VALUE: usize = 22;

    proof fn lemma_output() {
    }
}

impl Max<U<23>> for U<19> {
    type Output = U<23>;
    const VALUE: usize = 23;

    proof fn lemma_output() {
    }
}

impl Max<U<24>> for U<19> {
    type Output = U<24>;
    const VALUE: usize = 24;

    proof fn lemma_output() {
    }
}

impl Max<U<25>> for U<19> {
    type Output = U<25>;
    const VALUE: usize = 25;

    proof fn lemma_output() {
    }
}

impl Max<U<26>> for U<19> {
    type Output = U<26>;
    const VALUE: usize = 26;

    proof fn lemma_output() {
    }
}

impl Max<U<27>> for U<19> {
    type Output = U<27>;
    const VALUE: usize = 27;

    proof fn lemma_output() {
    }
}

impl Max<U<28>> for U<19> {
    type Output = U<28>;
    const VALUE: usize = 28;

    proof fn lemma_output() {
    }
}

impl Max<U<29>> for U<19> {
    type Output = U<29>;
    const VALUE: usize = 29;

    proof fn lemma_output() {
    }
}

impl Max<U<30>> for U<19> {
    type Output = U<30>;
    const VALUE: usize = 30;

    proof fn lemma_output() {
    }
}

impl Max<U<31>> for U<19> {
    type Output = U<31>;
    const VALUE: usize = 31;

    proof fn lemma_output() {
    }
}

impl Max<U<0>> for U<20> {
    type Output = U<20>;
    const VALUE: usize = 20;

    proof fn lemma_output() {
    }
}

impl Max<U<1>> for U<20> {
    type Output = U<20>;
    const VALUE: usize = 20;

    proof fn lemma_output() {
    }
}

impl Max<U<2>> for U<20> {
    type Output = U<20>;
    const VALUE: usize = 20;

    proof fn lemma_output() {
    }
}

impl Max<U<3>> for U<20> {
    type Output = U<20>;
    const VALUE: usize = 20;

    proof fn lemma_output() {
    }
}

impl Max<U<4>> for U<20> {
    type Output = U<20>;
    const VALUE: usize = 20;

    proof fn lemma_output() {
    }
}

impl Max<U<5>> for U<20> {
    type Output = U<20>;
    const VALUE: usize = 20;

    proof fn lemma_output() {
    }
}

impl Max<U<6>> for U<20> {
    type Output = U<20>;
    const VALUE: usize = 20;

    proof fn lemma_output() {
    }
}

impl Max<U<7>> for U<20> {
    type Output = U<20>;
    const VALUE: usize = 20;

    proof fn lemma_output() {
    }
}

impl Max<U<8>> for U<20> {
    type Output = U<20>;
    const VALUE: usize = 20;

    proof fn lemma_output() {
    }
}

impl Max<U<9>> for U<20> {
    type Output = U<20>;
    const VALUE: usize = 20;

    proof fn lemma_output() {
    }
}

impl Max<U<10>> for U<20> {
    type Output = U<20>;
    const VALUE: usize = 20;

    proof fn lemma_output() {
    }
}

impl Max<U<11>> for U<20> {
    type Output = U<20>;
    const VALUE: usize = 20;

    proof fn lemma_output() {
    }
}

impl Max<U<12>> for U<20> {
    type Output = U<20>;
    const VALUE: usize = 20;

    proof fn lemma_output() {
    }
}

impl Max<U<13>> for U<20> {
    type Output = U<20>;
    const VALUE: usize = 20;

    proof fn lemma_output() {
    }
}

impl Max<U<14>> for U<20> {
    type Output = U<20>;
    const VALUE: usize = 20;

    proof fn lemma_output() {
    }
}

impl Max<U<15>> for U<20> {
    type Output = U<20>;
    const VALUE: usize = 20;

    proof fn lemma_output() {
    }
}

impl Max<U<16>> for U<20> {
    type Output = U<20>;
    const VALUE: usize = 20;

    proof fn lemma_output() {
    }
}

impl Max<U<17>> for U<20> {
    type Output = U<20>;
    const VALUE: usize = 20;

    proof fn lemma_output() {
    }
}

impl Max<U<18>> for U<20> {
    type Output = U<20>;
    const VALUE: usize = 20;

    proof fn lemma_output() {
    }
}

impl Max<U<19>> for U<20> {
    type Output = U<20>;
    const VALUE: usize = 20;

    proof fn lemma_output() {
    }
}

impl Max<U<20>> for U<20> {
    type Output = U<20>;
    const VALUE: usize = 20;

    proof fn lemma_output() {
    }
}

impl Max<U<21>> for U<20> {
    type Output = U<21>;
    const VALUE: usize = 21;

    proof fn lemma_output() {
    }
}

impl Max<U<22>> for U<20> {
    type Output = U<22>;
    const VALUE: usize = 22;

    proof fn lemma_output() {
    }
}

impl Max<U<23>> for U<20> {
    type Output = U<23>;
    const VALUE: usize = 23;

    proof fn lemma_output() {
    }
}

impl Max<U<24>> for U<20> {
    type Output = U<24>;
    const VALUE: usize = 24;

    proof fn lemma_output() {
    }
}

impl Max<U<25>> for U<20> {
    type Output = U<25>;
    const VALUE: usize = 25;

    proof fn lemma_output() {
    }
}

impl Max<U<26>> for U<20> {
    type Output = U<26>;
    const VALUE: usize = 26;

    proof fn lemma_output() {
    }
}

impl Max<U<27>> for U<20> {
    type Output = U<27>;
    const VALUE: usize = 27;

    proof fn lemma_output() {
    }
}

impl Max<U<28>> for U<20> {
    type Output = U<28>;
    const VALUE: usize = 28;

    proof fn lemma_output() {
    }
}

impl Max<U<29>> for U<20> {
    type Output = U<29>;
    const VALUE: usize = 29;

    proof fn lemma_output() {
    }
}

impl Max<U<30>> for U<20> {
    type Output = U<30>;
    const VALUE: usize = 30;

    proof fn lemma_output() {
    }
}

impl Max<U<31>> for U<20> {
    type Output = U<31>;
    const VALUE: usize = 31;

    proof fn lemma_output() {
    }
}

impl Max<U<0>> for U<21> {
    type Output = U<21>;
    const VALUE: usize = 21;

    proof fn lemma_output() {
    }
}

impl Max<U<1>> for U<21> {
    type Output = U<21>;
    const VALUE: usize = 21;

    proof fn lemma_output() {
    }
}

impl Max<U<2>> for U<21> {
    type Output = U<21>;
    const VALUE: usize = 21;

    proof fn lemma_output() {
    }
}

impl Max<U<3>> for U<21> {
    type Output = U<21>;
    const VALUE: usize = 21;

    proof fn lemma_output() {
    }
}

impl Max<U<4>> for U<21> {
    type Output = U<21>;
    const VALUE: usize = 21;

    proof fn lemma_output() {
    }
}

impl Max<U<5>> for U<21> {
    type Output = U<21>;
    const VALUE: usize = 21;

    proof fn lemma_output() {
    }
}

impl Max<U<6>> for U<21> {
    type Output = U<21>;
    const VALUE: usize = 21;

    proof fn lemma_output() {
    }
}

impl Max<U<7>> for U<21> {
    type Output = U<21>;
    const VALUE: usize = 21;

    proof fn lemma_output() {
    }
}

impl Max<U<8>> for U<21> {
    type Output = U<21>;
    const VALUE: usize = 21;

    proof fn lemma_output() {
    }
}

impl Max<U<9>> for U<21> {
    type Output = U<21>;
    const VALUE: usize = 21;

    proof fn lemma_output() {
    }
}

impl Max<U<10>> for U<21> {
    type Output = U<21>;
    const VALUE: usize = 21;

    proof fn lemma_output() {
    }
}

impl Max<U<11>> for U<21> {
    type Output = U<21>;
    const VALUE: usize = 21;

    proof fn lemma_output() {
    }
}

impl Max<U<12>> for U<21> {
    type Output = U<21>;
    const VALUE: usize = 21;

    proof fn lemma_output() {
    }
}

impl Max<U<13>> for U<21> {
    type Output = U<21>;
    const VALUE: usize = 21;

    proof fn lemma_output() {
    }
}

impl Max<U<14>> for U<21> {
    type Output = U<21>;
    const VALUE: usize = 21;

    proof fn lemma_output() {
    }
}

impl Max<U<15>> for U<21> {
    type Output = U<21>;
    const VALUE: usize = 21;

    proof fn lemma_output() {
    }
}

impl Max<U<16>> for U<21> {
    type Output = U<21>;
    const VALUE: usize = 21;

    proof fn lemma_output() {
    }
}

impl Max<U<17>> for U<21> {
    type Output = U<21>;
    const VALUE: usize = 21;

    proof fn lemma_output() {
    }
}

impl Max<U<18>> for U<21> {
    type Output = U<21>;
    const VALUE: usize = 21;

    proof fn lemma_output() {
    }
}

impl Max<U<19>> for U<21> {
    type Output = U<21>;
    const VALUE: usize = 21;

    proof fn lemma_output() {
    }
}

impl Max<U<20>> for U<21> {
    type Output = U<21>;
    const VALUE: usize = 21;

    proof fn lemma_output() {
    }
}

impl Max<U<21>> for U<21> {
    type Output = U<21>;
    const VALUE: usize = 21;

    proof fn lemma_output() {
    }
}

impl Max<U<22>> for U<21> {
    type Output = U<22>;
    const VALUE: usize = 22;

    proof fn lemma_output() {
    }
}

impl Max<U<23>> for U<21> {
    type Output = U<23>;
    const VALUE: usize = 23;

    proof fn lemma_output() {
    }
}

impl Max<U<24>> for U<21> {
    type Output = U<24>;
    const VALUE: usize = 24;

    proof fn lemma_output() {
    }
}

impl Max<U<25>> for U<21> {
    type Output = U<25>;
    const VALUE: usize = 25;

    proof fn lemma_output() {
    }
}

impl Max<U<26>> for U<21> {
    type Output = U<26>;
    const VALUE: usize = 26;

    proof fn lemma_output() {
    }
}

impl Max<U<27>> for U<21> {
    type Output = U<27>;
    const VALUE: usize = 27;

    proof fn lemma_output() {
    }
}

impl Max<U<28>> for U<21> {
    type Output = U<28>;
    const VALUE: usize = 28;

    proof fn lemma_output() {
    }
}

impl Max<U<29>> for U<21> {
    type Output = U<29>;
    const VALUE: usize = 29;

    proof fn lemma_output() {
    }
}

impl Max<U<30>> for U<21> {
    type Output = U<30>;
    const VALUE: usize = 30;

    proof fn lemma_output() {
    }
}

impl Max<U<31>> for U<21> {
    type Output = U<31>;
    const VALUE: usize = 31;

    proof fn lemma_output() {
    }
}

impl Max<U<0>> for U<22> {
    type Output = U<22>;
    const VALUE: usize = 22;

    proof fn lemma_output() {
    }
}

impl Max<U<1>> for U<22> {
    type Output = U<22>;
    const VALUE: usize = 22;

    proof fn lemma_output() {
    }
}

impl Max<U<2>> for U<22> {
    type Output = U<22>;
    const VALUE: usize = 22;

    proof fn lemma_output() {
    }
}

impl Max<U<3>> for U<22> {
    type Output = U<22>;
    const VALUE: usize = 22;

    proof fn lemma_output() {
    }
}

impl Max<U<4>> for U<22> {
    type Output = U<22>;
    const VALUE: usize = 22;

    proof fn lemma_output() {
    }
}

impl Max<U<5>> for U<22> {
    type Output = U<22>;
    const VALUE: usize = 22;

    proof fn lemma_output() {
    }
}

impl Max<U<6>> for U<22> {
    type Output = U<22>;
    const VALUE: usize = 22;

    proof fn lemma_output() {
    }
}

impl Max<U<7>> for U<22> {
    type Output = U<22>;
    const VALUE: usize = 22;

    proof fn lemma_output() {
    }
}

impl Max<U<8>> for U<22> {
    type Output = U<22>;
    const VALUE: usize = 22;

    proof fn lemma_output() {
    }
}

impl Max<U<9>> for U<22> {
    type Output = U<22>;
    const VALUE: usize = 22;

    proof fn lemma_output() {
    }
}

impl Max<U<10>> for U<22> {
    type Output = U<22>;
    const VALUE: usize = 22;

    proof fn lemma_output() {
    }
}

impl Max<U<11>> for U<22> {
    type Output = U<22>;
    const VALUE: usize = 22;

    proof fn lemma_output() {
    }
}

impl Max<U<12>> for U<22> {
    type Output = U<22>;
    const VALUE: usize = 22;

    proof fn lemma_output() {
    }
}

impl Max<U<13>> for U<22> {
    type Output = U<22>;
    const VALUE: usize = 22;

    proof fn lemma_output() {
    }
}

impl Max<U<14>> for U<22> {
    type Output = U<22>;
    const VALUE: usize = 22;

    proof fn lemma_output() {
    }
}

impl Max<U<15>> for U<22> {
    type Output = U<22>;
    const VALUE: usize = 22;

    proof fn lemma_output() {
    }
}

impl Max<U<16>> for U<22> {
    type Output = U<22>;
    const VALUE: usize = 22;

    proof fn lemma_output() {
    }
}

impl Max<U<17>> for U<22> {
    type Output = U<22>;
    const VALUE: usize = 22;

    proof fn lemma_output() {
    }
}

impl Max<U<18>> for U<22> {
    type Output = U<22>;
    const VALUE: usize = 22;

    proof fn lemma_output() {
    }
}

impl Max<U<19>> for U<22> {
    type Output = U<22>;
    const VALUE: usize = 22;

    proof fn lemma_output() {
    }
}

impl Max<U<20>> for U<22> {
    type Output = U<22>;
    const VALUE: usize = 22;

    proof fn lemma_output() {
    }
}

impl Max<U<21>> for U<22> {
    type Output = U<22>;
    const VALUE: usize = 22;

    proof fn lemma_output() {
    }
}

impl Max<U<22>> for U<22> {
    type Output = U<22>;
    const VALUE: usize = 22;

    proof fn lemma_output() {
    }
}

impl Max<U<23>> for U<22> {
    type Output = U<23>;
    const VALUE: usize = 23;

    proof fn lemma_output() {
    }
}

impl Max<U<24>> for U<22> {
    type Output = U<24>;
    const VALUE: usize = 24;

    proof fn lemma_output() {
    }
}

impl Max<U<25>> for U<22> {
    type Output = U<25>;
    const VALUE: usize = 25;

    proof fn lemma_output() {
    }
}

impl Max<U<26>> for U<22> {
    type Output = U<26>;
    const VALUE: usize = 26;

    proof fn lemma_output() {
    }
}

impl Max<U<27>> for U<22> {
    type Output = U<27>;
    const VALUE: usize = 27;

    proof fn lemma_output() {
    }
}

impl Max<U<28>> for U<22> {
    type Output = U<28>;
    const VALUE: usize = 28;

    proof fn lemma_output() {
    }
}

impl Max<U<29>> for U<22> {
    type Output = U<29>;
    const VALUE: usize = 29;

    proof fn lemma_output() {
    }
}

impl Max<U<30>> for U<22> {
    type Output = U<30>;
    const VALUE: usize = 30;

    proof fn lemma_output() {
    }
}

impl Max<U<31>> for U<22> {
    type Output = U<31>;
    const VALUE: usize = 31;

    proof fn lemma_output() {
    }
}

impl Max<U<0>> for U<23> {
    type Output = U<23>;
    const VALUE: usize = 23;

    proof fn lemma_output() {
    }
}

impl Max<U<1>> for U<23> {
    type Output = U<23>;
    const VALUE: usize = 23;

    proof fn lemma_output() {
    }
}

impl Max<U<2>> for U<23> {
    type Output = U<23>;
    const VALUE: usize = 23;

    proof fn lemma_output() {
    }
}

impl Max<U<3>> for U<23> {
    type Output = U<23>;
    const VALUE: usize = 23;

    proof fn lemma_output() {
    }
}

impl Max<U<4>> for U<23> {
    type Output = U<23>;
    const VALUE: usize = 23;

    proof fn lemma_output() {
    }
}

impl Max<U<5>> for U<23> {
    type Output = U<23>;
    const VALUE: usize = 23;

    proof fn lemma_output() {
    }
}

impl Max<U<6>> for U<23> {
    type Output = U<23>;
    const VALUE: usize = 23;

    proof fn lemma_output() {
    }
}

impl Max<U<7>> for U<23> {
    type Output = U<23>;
    const VALUE: usize = 23;

    proof fn lemma_output() {
    }
}

impl Max<U<8>> for U<23> {
    type Output = U<23>;
    const VALUE: usize = 23;

    proof fn lemma_output() {
    }
}

impl Max<U<9>> for U<23> {
    type Output = U<23>;
    const VALUE: usize = 23;

    proof fn lemma_output() {
    }
}

impl Max<U<10>> for U<23> {
    type Output = U<23>;
    const VALUE: usize = 23;

    proof fn lemma_output() {
    }
}

impl Max<U<11>> for U<23> {
    type Output = U<23>;
    const VALUE: usize = 23;

    proof fn lemma_output() {
    }
}

impl Max<U<12>> for U<23> {
    type Output = U<23>;
    const VALUE: usize = 23;

    proof fn lemma_output() {
    }
}

impl Max<U<13>> for U<23> {
    type Output = U<23>;
    const VALUE: usize = 23;

    proof fn lemma_output() {
    }
}

impl Max<U<14>> for U<23> {
    type Output = U<23>;
    const VALUE: usize = 23;

    proof fn lemma_output() {
    }
}

impl Max<U<15>> for U<23> {
    type Output = U<23>;
    const VALUE: usize = 23;

    proof fn lemma_output() {
    }
}

impl Max<U<16>> for U<23> {
    type Output = U<23>;
    const VALUE: usize = 23;

    proof fn lemma_output() {
    }
}

impl Max<U<17>> for U<23> {
    type Output = U<23>;
    const VALUE: usize = 23;

    proof fn lemma_output() {
    }
}

impl Max<U<18>> for U<23> {
    type Output = U<23>;
    const VALUE: usize = 23;

    proof fn lemma_output() {
    }
}

impl Max<U<19>> for U<23> {
    type Output = U<23>;
    const VALUE: usize = 23;

    proof fn lemma_output() {
    }
}

impl Max<U<20>> for U<23> {
    type Output = U<23>;
    const VALUE: usize = 23;

    proof fn lemma_output() {
    }
}

impl Max<U<21>> for U<23> {
    type Output = U<23>;
    const VALUE: usize = 23;

    proof fn lemma_output() {
    }
}

impl Max<U<22>> for U<23> {
    type Output = U<23>;
    const VALUE: usize = 23;

    proof fn lemma_output() {
    }
}

impl Max<U<23>> for U<23> {
    type Output = U<23>;
    const VALUE: usize = 23;

    proof fn lemma_output() {
    }
}

impl Max<U<24>> for U<23> {
    type Output = U<24>;
    const VALUE: usize = 24;

    proof fn lemma_output() {
    }
}

impl Max<U<25>> for U<23> {
    type Output = U<25>;
    const VALUE: usize = 25;

    proof fn lemma_output() {
    }
}

impl Max<U<26>> for U<23> {
    type Output = U<26>;
    const VALUE: usize = 26;

    proof fn lemma_output() {
    }
}

impl Max<U<27>> for U<23> {
    type Output = U<27>;
    const VALUE: usize = 27;

    proof fn lemma_output() {
    }
}

impl Max<U<28>> for U<23> {
    type Output = U<28>;
    const VALUE: usize = 28;

    proof fn lemma_output() {
    }
}

impl Max<U<29>> for U<23> {
    type Output = U<29>;
    const VALUE: usize = 29;

    proof fn lemma_output() {
    }
}

impl Max<U<30>> for U<23> {
    type Output = U<30>;
    const VALUE: usize = 30;

    proof fn lemma_output() {
    }
}

impl Max<U<31>> for U<23> {
    type Output = U<31>;
    const VALUE: usize = 31;

    proof fn lemma_output() {
    }
}

impl Max<U<0>> for U<24> {
    type Output = U<24>;
    const VALUE: usize = 24;

    proof fn lemma_output() {
    }
}

impl Max<U<1>> for U<24> {
    type Output = U<24>;
    const VALUE: usize = 24;

    proof fn lemma_output() {
    }
}

impl Max<U<2>> for U<24> {
    type Output = U<24>;
    const VALUE: usize = 24;

    proof fn lemma_output() {
    }
}

impl Max<U<3>> for U<24> {
    type Output = U<24>;
    const VALUE: usize = 24;

    proof fn lemma_output() {
    }
}

impl Max<U<4>> for U<24> {
    type Output = U<24>;
    const VALUE: usize = 24;

    proof fn lemma_output() {
    }
}

impl Max<U<5>> for U<24> {
    type Output = U<24>;
    const VALUE: usize = 24;

    proof fn lemma_output() {
    }
}

impl Max<U<6>> for U<24> {
    type Output = U<24>;
    const VALUE: usize = 24;

    proof fn lemma_output() {
    }
}

impl Max<U<7>> for U<24> {
    type Output = U<24>;
    const VALUE: usize = 24;

    proof fn lemma_output() {
    }
}

impl Max<U<8>> for U<24> {
    type Output = U<24>;
    const VALUE: usize = 24;

    proof fn lemma_output() {
    }
}

impl Max<U<9>> for U<24> {
    type Output = U<24>;
    const VALUE: usize = 24;

    proof fn lemma_output() {
    }
}

impl Max<U<10>> for U<24> {
    type Output = U<24>;
    const VALUE: usize = 24;

    proof fn lemma_output() {
    }
}

impl Max<U<11>> for U<24> {
    type Output = U<24>;
    const VALUE: usize = 24;

    proof fn lemma_output() {
    }
}

impl Max<U<12>> for U<24> {
    type Output = U<24>;
    const VALUE: usize = 24;

    proof fn lemma_output() {
    }
}

impl Max<U<13>> for U<24> {
    type Output = U<24>;
    const VALUE: usize = 24;

    proof fn lemma_output() {
    }
}

impl Max<U<14>> for U<24> {
    type Output = U<24>;
    const VALUE: usize = 24;

    proof fn lemma_output() {
    }
}

impl Max<U<15>> for U<24> {
    type Output = U<24>;
    const VALUE: usize = 24;

    proof fn lemma_output() {
    }
}

impl Max<U<16>> for U<24> {
    type Output = U<24>;
    const VALUE: usize = 24;

    proof fn lemma_output() {
    }
}

impl Max<U<17>> for U<24> {
    type Output = U<24>;
    const VALUE: usize = 24;

    proof fn lemma_output() {
    }
}

impl Max<U<18>> for U<24> {
    type Output = U<24>;
    const VALUE: usize = 24;

    proof fn lemma_output() {
    }
}

impl Max<U<19>> for U<24> {
    type Output = U<24>;
    const VALUE: usize = 24;

    proof fn lemma_output() {
    }
}

impl Max<U<20>> for U<24> {
    type Output = U<24>;
    const VALUE: usize = 24;

    proof fn lemma_output() {
    }
}

impl Max<U<21>> for U<24> {
    type Output = U<24>;
    const VALUE: usize = 24;

    proof fn lemma_output() {
    }
}

impl Max<U<22>> for U<24> {
    type Output = U<24>;
    const VALUE: usize = 24;

    proof fn lemma_output() {
    }
}

impl Max<U<23>> for U<24> {
    type Output = U<24>;
    const VALUE: usize = 24;

    proof fn lemma_output() {
    }
}

impl Max<U<24>> for U<24> {
    type Output = U<24>;
    const VALUE: usize = 24;

    proof fn lemma_output() {
    }
}

impl Max<U<25>> for U<24> {
    type Output = U<25>;
    const VALUE: usize = 25;

    proof fn lemma_output() {
    }
}

impl Max<U<26>> for U<24> {
    type Output = U<26>;
    const VALUE: usize = 26;

    proof fn lemma_output() {
    }
}

impl Max<U<27>> for U<24> {
    type Output = U<27>;
    const VALUE: usize = 27;

    proof fn lemma_output() {
    }
}

impl Max<U<28>> for U<24> {
    type Output = U<28>;
    const VALUE: usize = 28;

    proof fn lemma_output() {
    }
}

impl Max<U<29>> for U<24> {
    type Output = U<29>;
    const VALUE: usize = 29;

    proof fn lemma_output() {
    }
}

impl Max<U<30>> for U<24> {
    type Output = U<30>;
    const VALUE: usize = 30;

    proof fn lemma_output() {
    }
}

impl Max<U<31>> for U<24> {
    type Output = U<31>;
    const VALUE: usize = 31;

    proof fn lemma_output() {
    }
}

impl Max<U<0>> for U<25> {
    type Output = U<25>;
    const VALUE: usize = 25;

    proof fn lemma_output() {
    }
}

impl Max<U<1>> for U<25> {
    type Output = U<25>;
    const VALUE: usize = 25;

    proof fn lemma_output() {
    }
}

impl Max<U<2>> for U<25> {
    type Output = U<25>;
    const VALUE: usize = 25;

    proof fn lemma_output() {
    }
}

impl Max<U<3>> for U<25> {
    type Output = U<25>;
    const VALUE: usize = 25;

    proof fn lemma_output() {
    }
}

impl Max<U<4>> for U<25> {
    type Output = U<25>;
    const VALUE: usize = 25;

    proof fn lemma_output() {
    }
}

impl Max<U<5>> for U<25> {
    type Output = U<25>;
    const VALUE: usize = 25;

    proof fn lemma_output() {
    }
}

impl Max<U<6>> for U<25> {
    type Output = U<25>;
    const VALUE: usize = 25;

    proof fn lemma_output() {
    }
}

impl Max<U<7>> for U<25> {
    type Output = U<25>;
    const VALUE: usize = 25;

    proof fn lemma_output() {
    }
}

impl Max<U<8>> for U<25> {
    type Output = U<25>;
    const VALUE: usize = 25;

    proof fn lemma_output() {
    }
}

impl Max<U<9>> for U<25> {
    type Output = U<25>;
    const VALUE: usize = 25;

    proof fn lemma_output() {
    }
}

impl Max<U<10>> for U<25> {
    type Output = U<25>;
    const VALUE: usize = 25;

    proof fn lemma_output() {
    }
}

impl Max<U<11>> for U<25> {
    type Output = U<25>;
    const VALUE: usize = 25;

    proof fn lemma_output() {
    }
}

impl Max<U<12>> for U<25> {
    type Output = U<25>;
    const VALUE: usize = 25;

    proof fn lemma_output() {
    }
}

impl Max<U<13>> for U<25> {
    type Output = U<25>;
    const VALUE: usize = 25;

    proof fn lemma_output() {
    }
}

impl Max<U<14>> for U<25> {
    type Output = U<25>;
    const VALUE: usize = 25;

    proof fn lemma_output() {
    }
}

impl Max<U<15>> for U<25> {
    type Output = U<25>;
    const VALUE: usize = 25;

    proof fn lemma_output() {
    }
}

impl Max<U<16>> for U<25> {
    type Output = U<25>;
    const VALUE: usize = 25;

    proof fn lemma_output() {
    }
}

impl Max<U<17>> for U<25> {
    type Output = U<25>;
    const VALUE: usize = 25;

    proof fn lemma_output() {
    }
}

impl Max<U<18>> for U<25> {
    type Output = U<25>;
    const VALUE: usize = 25;

    proof fn lemma_output() {
    }
}

impl Max<U<19>> for U<25> {
    type Output = U<25>;
    const VALUE: usize = 25;

    proof fn lemma_output() {
    }
}

impl Max<U<20>> for U<25> {
    type Output = U<25>;
    const VALUE: usize = 25;

    proof fn lemma_output() {
    }
}

impl Max<U<21>> for U<25> {
    type Output = U<25>;
    const VALUE: usize = 25;

    proof fn lemma_output() {
    }
}

impl Max<U<22>> for U<25> {
    type Output = U<25>;
    const VALUE: usize = 25;

    proof fn lemma_output() {
    }
}

impl Max<U<23>> for U<25> {
    type Output = U<25>;
    const VALUE: usize = 25;

    proof fn lemma_output() {
    }
}

impl Max<U<24>> for U<25> {
    type Output = U<25>;
    const VALUE: usize = 25;

    proof fn lemma_output() {
    }
}

impl Max<U<25>> for U<25> {
    type Output = U<25>;
    const VALUE: usize = 25;

    proof fn lemma_output() {
    }
}

impl Max<U<26>> for U<25> {
    type Output = U<26>;
    const VALUE: usize = 26;

    proof fn lemma_output() {
    }
}

impl Max<U<27>> for U<25> {
    type Output = U<27>;
    const VALUE: usize = 27;

    proof fn lemma_output() {
    }
}

impl Max<U<28>> for U<25> {
    type Output = U<28>;
    const VALUE: usize = 28;

    proof fn lemma_output() {
    }
}

impl Max<U<29>> for U<25> {
    type Output = U<29>;
    const VALUE: usize = 29;

    proof fn lemma_output() {
    }
}

impl Max<U<30>> for U<25> {
    type Output = U<30>;
    const VALUE: usize = 30;

    proof fn lemma_output() {
    }
}

impl Max<U<31>> for U<25> {
    type Output = U<31>;
    const VALUE: usize = 31;

    proof fn lemma_output() {
    }
}

impl Max<U<0>> for U<26> {
    type Output = U<26>;
    const VALUE: usize = 26;

    proof fn lemma_output() {
    }
}

impl Max<U<1>> for U<26> {
    type Output = U<26>;
    const VALUE: usize = 26;

    proof fn lemma_output() {
    }
}

impl Max<U<2>> for U<26> {
    type Output = U<26>;
    const VALUE: usize = 26;

    proof fn lemma_output() {
    }
}

impl Max<U<3>> for U<26> {
    type Output = U<26>;
    const VALUE: usize = 26;

    proof fn lemma_output() {
    }
}

impl Max<U<4>> for U<26> {
    type Output = U<26>;
    const VALUE: usize = 26;

    proof fn lemma_output() {
    }
}

impl Max<U<5>> for U<26> {
    type Output = U<26>;
    const VALUE: usize = 26;

    proof fn lemma_output() {
    }
}

impl Max<U<6>> for U<26> {
    type Output = U<26>;
    const VALUE: usize = 26;

    proof fn lemma_output() {
    }
}

impl Max<U<7>> for U<26> {
    type Output = U<26>;
    const VALUE: usize = 26;

    proof fn lemma_output() {
    }
}

impl Max<U<8>> for U<26> {
    type Output = U<26>;
    const VALUE: usize = 26;

    proof fn lemma_output() {
    }
}

impl Max<U<9>> for U<26> {
    type Output = U<26>;
    const VALUE: usize = 26;

    proof fn lemma_output() {
    }
}

impl Max<U<10>> for U<26> {
    type Output = U<26>;
    const VALUE: usize = 26;

    proof fn lemma_output() {
    }
}

impl Max<U<11>> for U<26> {
    type Output = U<26>;
    const VALUE: usize = 26;

    proof fn lemma_output() {
    }
}

impl Max<U<12>> for U<26> {
    type Output = U<26>;
    const VALUE: usize = 26;

    proof fn lemma_output() {
    }
}

impl Max<U<13>> for U<26> {
    type Output = U<26>;
    const VALUE: usize = 26;

    proof fn lemma_output() {
    }
}

impl Max<U<14>> for U<26> {
    type Output = U<26>;
    const VALUE: usize = 26;

    proof fn lemma_output() {
    }
}

impl Max<U<15>> for U<26> {
    type Output = U<26>;
    const VALUE: usize = 26;

    proof fn lemma_output() {
    }
}

impl Max<U<16>> for U<26> {
    type Output = U<26>;
    const VALUE: usize = 26;

    proof fn lemma_output() {
    }
}

impl Max<U<17>> for U<26> {
    type Output = U<26>;
    const VALUE: usize = 26;

    proof fn lemma_output() {
    }
}

impl Max<U<18>> for U<26> {
    type Output = U<26>;
    const VALUE: usize = 26;

    proof fn lemma_output() {
    }
}

impl Max<U<19>> for U<26> {
    type Output = U<26>;
    const VALUE: usize = 26;

    proof fn lemma_output() {
    }
}

impl Max<U<20>> for U<26> {
    type Output = U<26>;
    const VALUE: usize = 26;

    proof fn lemma_output() {
    }
}

impl Max<U<21>> for U<26> {
    type Output = U<26>;
    const VALUE: usize = 26;

    proof fn lemma_output() {
    }
}

impl Max<U<22>> for U<26> {
    type Output = U<26>;
    const VALUE: usize = 26;

    proof fn lemma_output() {
    }
}

impl Max<U<23>> for U<26> {
    type Output = U<26>;
    const VALUE: usize = 26;

    proof fn lemma_output() {
    }
}

impl Max<U<24>> for U<26> {
    type Output = U<26>;
    const VALUE: usize = 26;

    proof fn lemma_output() {
    }
}

impl Max<U<25>> for U<26> {
    type Output = U<26>;
    const VALUE: usize = 26;

    proof fn lemma_output() {
    }
}

impl Max<U<26>> for U<26> {
    type Output = U<26>;
    const VALUE: usize = 26;

    proof fn lemma_output() {
    }
}

impl Max<U<27>> for U<26> {
    type Output = U<27>;
    const VALUE: usize = 27;

    proof fn lemma_output() {
    }
}

impl Max<U<28>> for U<26> {
    type Output = U<28>;
    const VALUE: usize = 28;

    proof fn lemma_output() {
    }
}

impl Max<U<29>> for U<26> {
    type Output = U<29>;
    const VALUE: usize = 29;

    proof fn lemma_output() {
    }
}

impl Max<U<30>> for U<26> {
    type Output = U<30>;
    const VALUE: usize = 30;

    proof fn lemma_output() {
    }
}

impl Max<U<31>> for U<26> {
    type Output = U<31>;
    const VALUE: usize = 31;

    proof fn lemma_output() {
    }
}

impl Max<U<0>> for U<27> {
    type Output = U<27>;
    const VALUE: usize = 27;

    proof fn lemma_output() {
    }
}

impl Max<U<1>> for U<27> {
    type Output = U<27>;
    const VALUE: usize = 27;

    proof fn lemma_output() {
    }
}

impl Max<U<2>> for U<27> {
    type Output = U<27>;
    const VALUE: usize = 27;

    proof fn lemma_output() {
    }
}

impl Max<U<3>> for U<27> {
    type Output = U<27>;
    const VALUE: usize = 27;

    proof fn lemma_output() {
    }
}

impl Max<U<4>> for U<27> {
    type Output = U<27>;
    const VALUE: usize = 27;

    proof fn lemma_output() {
    }
}

impl Max<U<5>> for U<27> {
    type Output = U<27>;
    const VALUE: usize = 27;

    proof fn lemma_output() {
    }
}

impl Max<U<6>> for U<27> {
    type Output = U<27>;
    const VALUE: usize = 27;

    proof fn lemma_output() {
    }
}

impl Max<U<7>> for U<27> {
    type Output = U<27>;
    const VALUE: usize = 27;

    proof fn lemma_output() {
    }
}

impl Max<U<8>> for U<27> {
    type Output = U<27>;
    const VALUE: usize = 27;

    proof fn lemma_output() {
    }
}

impl Max<U<9>> for U<27> {
    type Output = U<27>;
    const VALUE: usize = 27;

    proof fn lemma_output() {
    }
}

impl Max<U<10>> for U<27> {
    type Output = U<27>;
    const VALUE: usize = 27;

    proof fn lemma_output() {
    }
}

impl Max<U<11>> for U<27> {
    type Output = U<27>;
    const VALUE: usize = 27;

    proof fn lemma_output() {
    }
}

impl Max<U<12>> for U<27> {
    type Output = U<27>;
    const VALUE: usize = 27;

    proof fn lemma_output() {
    }
}

impl Max<U<13>> for U<27> {
    type Output = U<27>;
    const VALUE: usize = 27;

    proof fn lemma_output() {
    }
}

impl Max<U<14>> for U<27> {
    type Output = U<27>;
    const VALUE: usize = 27;

    proof fn lemma_output() {
    }
}

impl Max<U<15>> for U<27> {
    type Output = U<27>;
    const VALUE: usize = 27;

    proof fn lemma_output() {
    }
}

impl Max<U<16>> for U<27> {
    type Output = U<27>;
    const VALUE: usize = 27;

    proof fn lemma_output() {
    }
}

impl Max<U<17>> for U<27> {
    type Output = U<27>;
    const VALUE: usize = 27;

    proof fn lemma_output() {
    }
}

impl Max<U<18>> for U<27> {
    type Output = U<27>;
    const VALUE: usize = 27;

    proof fn lemma_output() {
    }
}

impl Max<U<19>> for U<27> {
    type Output = U<27>;
    const VALUE: usize = 27;

    proof fn lemma_output() {
    }
}

impl Max<U<20>> for U<27> {
    type Output = U<27>;
    const VALUE: usize = 27;

    proof fn lemma_output() {
    }
}

impl Max<U<21>> for U<27> {
    type Output = U<27>;
    const VALUE: usize = 27;

    proof fn lemma_output() {
    }
}

impl Max<U<22>> for U<27> {
    type Output = U<27>;
    const VALUE: usize = 27;

    proof fn lemma_output() {
    }
}

impl Max<U<23>> for U<27> {
    type Output = U<27>;
    const VALUE: usize = 27;

    proof fn lemma_output() {
    }
}

impl Max<U<24>> for U<27> {
    type Output = U<27>;
    const VALUE: usize = 27;

    proof fn lemma_output() {
    }
}

impl Max<U<25>> for U<27> {
    type Output = U<27>;
    const VALUE: usize = 27;

    proof fn lemma_output() {
    }
}

impl Max<U<26>> for U<27> {
    type Output = U<27>;
    const VALUE: usize = 27;

    proof fn lemma_output() {
    }
}

impl Max<U<27>> for U<27> {
    type Output = U<27>;
    const VALUE: usize = 27;

    proof fn lemma_output() {
    }
}

impl Max<U<28>> for U<27> {
    type Output = U<28>;
    const VALUE: usize = 28;

    proof fn lemma_output() {
    }
}

impl Max<U<29>> for U<27> {
    type Output = U<29>;
    const VALUE: usize = 29;

    proof fn lemma_output() {
    }
}

impl Max<U<30>> for U<27> {
    type Output = U<30>;
    const VALUE: usize = 30;

    proof fn lemma_output() {
    }
}

impl Max<U<31>> for U<27> {
    type Output = U<31>;
    const VALUE: usize = 31;

    proof fn lemma_output() {
    }
}

impl Max<U<0>> for U<28> {
    type Output = U<28>;
    const VALUE: usize = 28;

    proof fn lemma_output() {
    }
}

impl Max<U<1>> for U<28> {
    type Output = U<28>;
    const VALUE: usize = 28;

    proof fn lemma_output() {
    }
}

impl Max<U<2>> for U<28> {
    type Output = U<28>;
    const VALUE: usize = 28;

    proof fn lemma_output() {
    }
}

impl Max<U<3>> for U<28> {
    type Output = U<28>;
    const VALUE: usize = 28;

    proof fn lemma_output() {
    }
}

impl Max<U<4>> for U<28> {
    type Output = U<28>;
    const VALUE: usize = 28;

    proof fn lemma_output() {
    }
}

impl Max<U<5>> for U<28> {
    type Output = U<28>;
    const VALUE: usize = 28;

    proof fn lemma_output() {
    }
}

impl Max<U<6>> for U<28> {
    type Output = U<28>;
    const VALUE: usize = 28;

    proof fn lemma_output() {
    }
}

impl Max<U<7>> for U<28> {
    type Output = U<28>;
    const VALUE: usize = 28;

    proof fn lemma_output() {
    }
}

impl Max<U<8>> for U<28> {
    type Output = U<28>;
    const VALUE: usize = 28;

    proof fn lemma_output() {
    }
}

impl Max<U<9>> for U<28> {
    type Output = U<28>;
    const VALUE: usize = 28;

    proof fn lemma_output() {
    }
}

impl Max<U<10>> for U<28> {
    type Output = U<28>;
    const VALUE: usize = 28;

    proof fn lemma_output() {
    }
}

impl Max<U<11>> for U<28> {
    type Output = U<28>;
    const VALUE: usize = 28;

    proof fn lemma_output() {
    }
}

impl Max<U<12>> for U<28> {
    type Output = U<28>;
    const VALUE: usize = 28;

    proof fn lemma_output() {
    }
}

impl Max<U<13>> for U<28> {
    type Output = U<28>;
    const VALUE: usize = 28;

    proof fn lemma_output() {
    }
}

impl Max<U<14>> for U<28> {
    type Output = U<28>;
    const VALUE: usize = 28;

    proof fn lemma_output() {
    }
}

impl Max<U<15>> for U<28> {
    type Output = U<28>;
    const VALUE: usize = 28;

    proof fn lemma_output() {
    }
}

impl Max<U<16>> for U<28> {
    type Output = U<28>;
    const VALUE: usize = 28;

    proof fn lemma_output() {
    }
}

impl Max<U<17>> for U<28> {
    type Output = U<28>;
    const VALUE: usize = 28;

    proof fn lemma_output() {
    }
}

impl Max<U<18>> for U<28> {
    type Output = U<28>;
    const VALUE: usize = 28;

    proof fn lemma_output() {
    }
}

impl Max<U<19>> for U<28> {
    type Output = U<28>;
    const VALUE: usize = 28;

    proof fn lemma_output() {
    }
}

impl Max<U<20>> for U<28> {
    type Output = U<28>;
    const VALUE: usize = 28;

    proof fn lemma_output() {
    }
}

impl Max<U<21>> for U<28> {
    type Output = U<28>;
    const VALUE: usize = 28;

    proof fn lemma_output() {
    }
}

impl Max<U<22>> for U<28> {
    type Output = U<28>;
    const VALUE: usize = 28;

    proof fn lemma_output() {
    }
}

impl Max<U<23>> for U<28> {
    type Output = U<28>;
    const VALUE: usize = 28;

    proof fn lemma_output() {
    }
}

impl Max<U<24>> for U<28> {
    type Output = U<28>;
    const VALUE: usize = 28;

    proof fn lemma_output() {
    }
}

impl Max<U<25>> for U<28> {
    type Output = U<28>;
    const VALUE: usize = 28;

    proof fn lemma_output() {
    }
}

impl Max<U<26>> for U<28> {
    type Output = U<28>;
    const VALUE: usize = 28;

    proof fn lemma_output() {
    }
}

impl Max<U<27>> for U<28> {
    type Output = U<28>;
    const VALUE: usize = 28;

    proof fn lemma_output() {
    }
}

impl Max<U<28>> for U<28> {
    type Output = U<28>;
    const VALUE: usize = 28;

    proof fn lemma_output() {
    }
}

impl Max<U<29>> for U<28> {
    type Output = U<29>;
    const VALUE: usize = 29;

    proof fn lemma_output() {
    }
}

impl Max<U<30>> for U<28> {
    type Output = U<30>;
    const VALUE: usize = 30;

    proof fn lemma_output() {
    }
}

impl Max<U<31>> for U<28> {
    type Output = U<31>;
    const VALUE: usize = 31;

    proof fn lemma_output() {
    }
}

impl Max<U<0>> for U<29> {
    type Output = U<29>;
    const VALUE: usize = 29;

    proof fn lemma_output() {
    }
}

impl Max<U<1>> for U<29> {
    type Output = U<29>;
    const VALUE: usize = 29;

    proof fn lemma_output() {
    }
}

impl Max<U<2>> for U<29> {
    type Output = U<29>;
    const VALUE: usize = 29;

    proof fn lemma_output() {
    }
}

impl Max<U<3>> for U<29> {
    type Output = U<29>;
    const VALUE: usize = 29;

    proof fn lemma_output() {
    }
}

impl Max<U<4>> for U<29> {
    type Output = U<29>;
    const VALUE: usize = 29;

    proof fn lemma_output() {
    }
}

impl Max<U<5>> for U<29> {
    type Output = U<29>;
    const VALUE: usize = 29;

    proof fn lemma_output() {
    }
}

impl Max<U<6>> for U<29> {
    type Output = U<29>;
    const VALUE: usize = 29;

    proof fn lemma_output() {
    }
}

impl Max<U<7>> for U<29> {
    type Output = U<29>;
    const VALUE: usize = 29;

    proof fn lemma_output() {
    }
}

impl Max<U<8>> for U<29> {
    type Output = U<29>;
    const VALUE: usize = 29;

    proof fn lemma_output() {
    }
}

impl Max<U<9>> for U<29> {
    type Output = U<29>;
    const VALUE: usize = 29;

    proof fn lemma_output() {
    }
}

impl Max<U<10>> for U<29> {
    type Output = U<29>;
    const VALUE: usize = 29;

    proof fn lemma_output() {
    }
}

impl Max<U<11>> for U<29> {
    type Output = U<29>;
    const VALUE: usize = 29;

    proof fn lemma_output() {
    }
}

impl Max<U<12>> for U<29> {
    type Output = U<29>;
    const VALUE: usize = 29;

    proof fn lemma_output() {
    }
}

impl Max<U<13>> for U<29> {
    type Output = U<29>;
    const VALUE: usize = 29;

    proof fn lemma_output() {
    }
}

impl Max<U<14>> for U<29> {
    type Output = U<29>;
    const VALUE: usize = 29;

    proof fn lemma_output() {
    }
}

impl Max<U<15>> for U<29> {
    type Output = U<29>;
    const VALUE: usize = 29;

    proof fn lemma_output() {
    }
}

impl Max<U<16>> for U<29> {
    type Output = U<29>;
    const VALUE: usize = 29;

    proof fn lemma_output() {
    }
}

impl Max<U<17>> for U<29> {
    type Output = U<29>;
    const VALUE: usize = 29;

    proof fn lemma_output() {
    }
}

impl Max<U<18>> for U<29> {
    type Output = U<29>;
    const VALUE: usize = 29;

    proof fn lemma_output() {
    }
}

impl Max<U<19>> for U<29> {
    type Output = U<29>;
    const VALUE: usize = 29;

    proof fn lemma_output() {
    }
}

impl Max<U<20>> for U<29> {
    type Output = U<29>;
    const VALUE: usize = 29;

    proof fn lemma_output() {
    }
}

impl Max<U<21>> for U<29> {
    type Output = U<29>;
    const VALUE: usize = 29;

    proof fn lemma_output() {
    }
}

impl Max<U<22>> for U<29> {
    type Output = U<29>;
    const VALUE: usize = 29;

    proof fn lemma_output() {
    }
}

impl Max<U<23>> for U<29> {
    type Output = U<29>;
    const VALUE: usize = 29;

    proof fn lemma_output() {
    }
}

impl Max<U<24>> for U<29> {
    type Output = U<29>;
    const VALUE: usize = 29;

    proof fn lemma_output() {
    }
}

impl Max<U<25>> for U<29> {
    type Output = U<29>;
    const VALUE: usize = 29;

    proof fn lemma_output() {
    }
}

impl Max<U<26>> for U<29> {
    type Output = U<29>;
    const VALUE: usize = 29;

    proof fn lemma_output() {
    }
}

impl Max<U<27>> for U<29> {
    type Output = U<29>;
    const VALUE: usize = 29;

    proof fn lemma_output() {
    }
}

impl Max<U<28>> for U<29> {
    type Output = U<29>;
    const VALUE: usize = 29;

    proof fn lemma_output() {
    }
}

impl Max<U<29>> for U<29> {
    type Output = U<29>;
    const VALUE: usize = 29;

    proof fn lemma_output() {
    }
}

impl Max<U<30>> for U<29> {
    type Output = U<30>;
    const VALUE: usize = 30;

    proof fn lemma_output() {
    }
}

impl Max<U<31>> for U<29> {
    type Output = U<31>;
    const VALUE: usize = 31;

    proof fn lemma_output() {
    }
}

impl Max<U<0>> for U<30> {
    type Output = U<30>;
    const VALUE: usize = 30;

    proof fn lemma_output() {
    }
}

impl Max<U<1>> for U<30> {
    type Output = U<30>;
    const VALUE: usize = 30;

    proof fn lemma_output() {
    }
}

impl Max<U<2>> for U<30> {
    type Output = U<30>;
    const VALUE: usize = 30;

    proof fn lemma_output() {
    }
}

impl Max<U<3>> for U<30> {
    type Output = U<30>;
    const VALUE: usize = 30;

    proof fn lemma_output() {
    }
}

impl Max<U<4>> for U<30> {
    type Output = U<30>;
    const VALUE: usize = 30;

    proof fn lemma_output() {
    }
}

impl Max<U<5>> for U<30> {
    type Output = U<30>;
    const VALUE: usize = 30;

    proof fn lemma_output() {
    }
}

impl Max<U<6>> for U<30> {
    type Output = U<30>;
    const VALUE: usize = 30;

    proof fn lemma_output() {
    }
}

impl Max<U<7>> for U<30> {
    type Output = U<30>;
    const VALUE: usize = 30;

    proof fn lemma_output() {
    }
}

impl Max<U<8>> for U<30> {
    type Output = U<30>;
    const VALUE: usize = 30;

    proof fn lemma_output() {
    }
}

impl Max<U<9>> for U<30> {
    type Output = U<30>;
    const VALUE: usize = 30;

    proof fn lemma_output() {
    }
}

impl Max<U<10>> for U<30> {
    type Output = U<30>;
    const VALUE: usize = 30;

    proof fn lemma_output() {
    }
}

impl Max<U<11>> for U<30> {
    type Output = U<30>;
    const VALUE: usize = 30;

    proof fn lemma_output() {
    }
}

impl Max<U<12>> for U<30> {
    type Output = U<30>;
    const VALUE: usize = 30;

    proof fn lemma_output() {
    }
}

impl Max<U<13>> for U<30> {
    type Output = U<30>;
    const VALUE: usize = 30;

    proof fn lemma_output() {
    }
}

impl Max<U<14>> for U<30> {
    type Output = U<30>;
    const VALUE: usize = 30;

    proof fn lemma_output() {
    }
}

impl Max<U<15>> for U<30> {
    type Output = U<30>;
    const VALUE: usize = 30;

    proof fn lemma_output() {
    }
}

impl Max<U<16>> for U<30> {
    type Output = U<30>;
    const VALUE: usize = 30;

    proof fn lemma_output() {
    }
}

impl Max<U<17>> for U<30> {
    type Output = U<30>;
    const VALUE: usize = 30;

    proof fn lemma_output() {
    }
}

impl Max<U<18>> for U<30> {
    type Output = U<30>;
    const VALUE: usize = 30;

    proof fn lemma_output() {
    }
}

impl Max<U<19>> for U<30> {
    type Output = U<30>;
    const VALUE: usize = 30;

    proof fn lemma_output() {
    }
}

impl Max<U<20>> for U<30> {
    type Output = U<30>;
    const VALUE: usize = 30;

    proof fn lemma_output() {
    }
}

impl Max<U<21>> for U<30> {
    type Output = U<30>;
    const VALUE: usize = 30;

    proof fn lemma_output() {
    }
}

impl Max<U<22>> for U<30> {
    type Output = U<30>;
    const VALUE: usize = 30;

    proof fn lemma_output() {
    }
}

impl Max<U<23>> for U<30> {
    type Output = U<30>;
    const VALUE: usize = 30;

    proof fn lemma_output() {
    }
}

impl Max<U<24>> for U<30> {
    type Output = U<30>;
    const VALUE: usize = 30;

    proof fn lemma_output() {
    }
}

impl Max<U<25>> for U<30> {
    type Output = U<30>;
    const VALUE: usize = 30;

    proof fn lemma_output() {
    }
}

impl Max<U<26>> for U<30> {
    type Output = U<30>;
    const VALUE: usize = 30;

    proof fn lemma_output() {
    }
}

impl Max<U<27>> for U<30> {
    type Output = U<30>;
    const VALUE: usize = 30;

    proof fn lemma_output() {
    }
}

impl Max<U<28>> for U<30> {
    type Output = U<30>;
    const VALUE: usize = 30;

    proof fn lemma_output() {
    }
}

impl Max<U<29>> for U<30> {
    type Output = U<30>;
    const VALUE: usize = 30;

    proof fn lemma_output() {
    }
}

impl Max<U<30>> for U<30> {
    type Output = U<30>;
    const VALUE: usize = 30;

    proof fn lemma_output() {
    }
}

impl Max<U<31>> for U<30> {
    type Output = U<31>;
    const VALUE: usize = 31;

    proof fn lemma_output() {
    }
}

impl Max<U<0>> for U<31> {
    type Output = U<31>;
    const VALUE: usize = 31;

    proof fn lemma_output() {
    }
}

impl Max<U<1>> for U<31> {
    type Output = U<31>;
    const VALUE: usize = 31;

    proof fn lemma_output() {
    }
}

impl Max<U<2>> for U<31> {
    type Output = U<31>;
    const VALUE: usize = 31;

    proof fn lemma_output() {
    }
}

impl Max<U<3>> for U<31> {
    type Output = U<31>;
    const VALUE: usize = 31;

    proof fn lemma_output() {
    }
}

impl Max<U<4>> for U<31> {
    type Output = U<31>;
    const VALUE: usize = 31;

    proof fn lemma_output() {
    }
}

impl Max<U<5>> for U<31> {
    type Output = U<31>;
    const VALUE: usize = 31;

    proof fn lemma_output() {
    }
}

impl Max<U<6>> for U<31> {
    type Output = U<31>;
    const VALUE: usize = 31;

    proof fn lemma_output() {
    }
}

impl Max<U<7>> for U<31> {
    type Output = U<31>;
    const VALUE: usize = 31;

    proof fn lemma_output() {
    }
}

impl Max<U<8>> for U<31> {
    type Output = U<31>;
    const VALUE: usize = 31;

    proof fn lemma_output() {
    }
}

impl Max<U<9>> for U<31> {
    type Output = U<31>;
    const VALUE: usize = 31;

    proof fn lemma_output() {
    }
}

impl Max<U<10>> for U<31> {
    type Output = U<31>;
    const VALUE: usize = 31;

    proof fn lemma_output() {
    }
}

impl Max<U<11>> for U<31> {
    type Output = U<31>;
    const VALUE: usize = 31;

    proof fn lemma_output() {
    }
}

impl Max<U<12>> for U<31> {
    type Output = U<31>;
    const VALUE: usize = 31;

    proof fn lemma_output() {
    }
}

impl Max<U<13>> for U<31> {
    type Output = U<31>;
    const VALUE: usize = 31;

    proof fn lemma_output() {
    }
}

impl Max<U<14>> for U<31> {
    type Output = U<31>;
    const VALUE: usize = 31;

    proof fn lemma_output() {
    }
}

impl Max<U<15>> for U<31> {
    type Output = U<31>;
    const VALUE: usize = 31;

    proof fn lemma_output() {
    }
}

impl Max<U<16>> for U<31> {
    type Output = U<31>;
    const VALUE: usize = 31;

    proof fn lemma_output() {
    }
}

impl Max<U<17>> for U<31> {
    type Output = U<31>;
    const VALUE: usize = 31;

    proof fn lemma_output() {
    }
}

impl Max<U<18>> for U<31> {
    type Output = U<31>;
    const VALUE: usize = 31;

    proof fn lemma_output() {
    }
}

impl Max<U<19>> for U<31> {
    type Output = U<31>;
    const VALUE: usize = 31;

    proof fn lemma_output() {
    }
}

impl Max<U<20>> for U<31> {
    type Output = U<31>;
    const VALUE: usize = 31;

    proof fn lemma_output() {
    }
}

impl Max<U<21>> for U<31> {
    type Output = U<31>;
    const VALUE: usize = 31;

    proof fn lemma_output() {
    }
}

impl Max<U<22>> for U<31> {
    type Output = U<31>;
    const VALUE: usize = 31;

    proof fn lemma_output() {
    }
}

impl Max<U<23>> for U<31> {
    type Output = U<31>;
    const VALUE: usize = 31;

    proof fn lemma_output() {
    }
}

impl Max<U<24>> for U<31> {
    type Output = U<31>;
    const VALUE: usize = 31;

    proof fn lemma_output() {
    }
}

impl Max<U<25>> for U<31> {
    type Output = U<31>;
    const VALUE: usize = 31;

    proof fn lemma_output() {
    }
}

impl Max<U<26>> for U<31> {
    type Output = U<31>;
    const VALUE: usize = 31;

    proof fn lemma_output() {
    }
}

impl Max<U<27>> for U<31> {
    type Output = U<31>;
    const VALUE: usize = 31;

    proof fn lemma_output() {
    }
}

impl Max<U<28>> for U<31> {
    type Output = U<31>;
    const VALUE: usize = 31;

    proof fn lemma_output() {
    }
}

impl Max<U<29>> for U<31> {
    type Output = U<31>;
    const VALUE: usize = 31;

    proof fn lemma_output() {
    }
}

impl Max<U<30>> for U<31> {
    type Output = U<31>;
    const VALUE: usize = 31;

    proof fn lemma_output() {
    }
}

impl Max<U<31>> for U<31> {
    type Output = U<31>;
    const VALUE: usize = 31;

    proof fn lemma_output() {
    }
}

impl AssertLe<0> for U<0> {
    proof fn lemma_le() {
    }
}

impl AssertLe<1> for U<0> {
    proof fn lemma_le() {
    }
}

impl AssertLe<2> for U<0> {
    proof fn lemma_le() {
    }
}

impl AssertLe<3> for U<0> {
    proof fn lemma_le() {
    }
}

impl AssertLe<4> for U<0> {
    proof fn lemma_le() {
    }
}

impl AssertLe<5> for U<0> {
    proof fn lemma_le() {
    }
}

impl AssertLe<6> for U<0> {
    proof fn lemma_le() {
    }
}

impl AssertLe<7> for U<0> {
    proof fn lemma_le() {
    }
}

impl AssertLe<8> for U<0> {
    proof fn lemma_le() {
    }
}

impl AssertLe<9> for U<0> {
    proof fn lemma_le() {
    }
}

impl AssertLe<10> for U<0> {
    proof fn lemma_le() {
    }
}

impl AssertLe<11> for U<0> {
    proof fn lemma_le() {
    }
}

impl AssertLe<12> for U<0> {
    proof fn lemma_le() {
    }
}

impl AssertLe<13> for U<0> {
    proof fn lemma_le() {
    }
}

impl AssertLe<14> for U<0> {
    proof fn lemma_le() {
    }
}

impl AssertLe<15> for U<0> {
    proof fn lemma_le() {
    }
}

impl AssertLe<16> for U<0> {
    proof fn lemma_le() {
    }
}

impl AssertLe<17> for U<0> {
    proof fn lemma_le() {
    }
}

impl AssertLe<18> for U<0> {
    proof fn lemma_le() {
    }
}

impl AssertLe<19> for U<0> {
    proof fn lemma_le() {
    }
}

impl AssertLe<20> for U<0> {
    proof fn lemma_le() {
    }
}

impl AssertLe<21> for U<0> {
    proof fn lemma_le() {
    }
}

impl AssertLe<22> for U<0> {
    proof fn lemma_le() {
    }
}

impl AssertLe<23> for U<0> {
    proof fn lemma_le() {
    }
}

impl AssertLe<24> for U<0> {
    proof fn lemma_le() {
    }
}

impl AssertLe<25> for U<0> {
    proof fn lemma_le() {
    }
}

impl AssertLe<26> for U<0> {
    proof fn lemma_le() {
    }
}

impl AssertLe<27> for U<0> {
    proof fn lemma_le() {
    }
}

impl AssertLe<28> for U<0> {
    proof fn lemma_le() {
    }
}

impl AssertLe<29> for U<0> {
    proof fn lemma_le() {
    }
}

impl AssertLe<30> for U<0> {
    proof fn lemma_le() {
    }
}

impl AssertLe<31> for U<0> {
    proof fn lemma_le() {
    }
}

impl AssertLe<1> for U<1> {
    proof fn lemma_le() {
    }
}

impl AssertLe<2> for U<1> {
    proof fn lemma_le() {
    }
}

impl AssertLe<3> for U<1> {
    proof fn lemma_le() {
    }
}

impl AssertLe<4> for U<1> {
    proof fn lemma_le() {
    }
}

impl AssertLe<5> for U<1> {
    proof fn lemma_le() {
    }
}

impl AssertLe<6> for U<1> {
    proof fn lemma_le() {
    }
}

impl AssertLe<7> for U<1> {
    proof fn lemma_le() {
    }
}

impl AssertLe<8> for U<1> {
    proof fn lemma_le() {
    }
}

impl AssertLe<9> for U<1> {
    proof fn lemma_le() {
    }
}

impl AssertLe<10> for U<1> {
    proof fn lemma_le() {
    }
}

impl AssertLe<11> for U<1> {
    proof fn lemma_le() {
    }
}

impl AssertLe<12> for U<1> {
    proof fn lemma_le() {
    }
}

impl AssertLe<13> for U<1> {
    proof fn lemma_le() {
    }
}

impl AssertLe<14> for U<1> {
    proof fn lemma_le() {
    }
}

impl AssertLe<15> for U<1> {
    proof fn lemma_le() {
    }
}

impl AssertLe<16> for U<1> {
    proof fn lemma_le() {
    }
}

impl AssertLe<17> for U<1> {
    proof fn lemma_le() {
    }
}

impl AssertLe<18> for U<1> {
    proof fn lemma_le() {
    }
}

impl AssertLe<19> for U<1> {
    proof fn lemma_le() {
    }
}

impl AssertLe<20> for U<1> {
    proof fn lemma_le() {
    }
}

impl AssertLe<21> for U<1> {
    proof fn lemma_le() {
    }
}

impl AssertLe<22> for U<1> {
    proof fn lemma_le() {
    }
}

impl AssertLe<23> for U<1> {
    proof fn lemma_le() {
    }
}

impl AssertLe<24> for U<1> {
    proof fn lemma_le() {
    }
}

impl AssertLe<25> for U<1> {
    proof fn lemma_le() {
    }
}

impl AssertLe<26> for U<1> {
    proof fn lemma_le() {
    }
}

impl AssertLe<27> for U<1> {
    proof fn lemma_le() {
    }
}

impl AssertLe<28> for U<1> {
    proof fn lemma_le() {
    }
}

impl AssertLe<29> for U<1> {
    proof fn lemma_le() {
    }
}

impl AssertLe<30> for U<1> {
    proof fn lemma_le() {
    }
}

impl AssertLe<31> for U<1> {
    proof fn lemma_le() {
    }
}

impl AssertLe<2> for U<2> {
    proof fn lemma_le() {
    }
}

impl AssertLe<3> for U<2> {
    proof fn lemma_le() {
    }
}

impl AssertLe<4> for U<2> {
    proof fn lemma_le() {
    }
}

impl AssertLe<5> for U<2> {
    proof fn lemma_le() {
    }
}

impl AssertLe<6> for U<2> {
    proof fn lemma_le() {
    }
}

impl AssertLe<7> for U<2> {
    proof fn lemma_le() {
    }
}

impl AssertLe<8> for U<2> {
    proof fn lemma_le() {
    }
}

impl AssertLe<9> for U<2> {
    proof fn lemma_le() {
    }
}

impl AssertLe<10> for U<2> {
    proof fn lemma_le() {
    }
}

impl AssertLe<11> for U<2> {
    proof fn lemma_le() {
    }
}

impl AssertLe<12> for U<2> {
    proof fn lemma_le() {
    }
}

impl AssertLe<13> for U<2> {
    proof fn lemma_le() {
    }
}

impl AssertLe<14> for U<2> {
    proof fn lemma_le() {
    }
}

impl AssertLe<15> for U<2> {
    proof fn lemma_le() {
    }
}

impl AssertLe<16> for U<2> {
    proof fn lemma_le() {
    }
}

impl AssertLe<17> for U<2> {
    proof fn lemma_le() {
    }
}

impl AssertLe<18> for U<2> {
    proof fn lemma_le() {
    }
}

impl AssertLe<19> for U<2> {
    proof fn lemma_le() {
    }
}

impl AssertLe<20> for U<2> {
    proof fn lemma_le() {
    }
}

impl AssertLe<21> for U<2> {
    proof fn lemma_le() {
    }
}

impl AssertLe<22> for U<2> {
    proof fn lemma_le() {
    }
}

impl AssertLe<23> for U<2> {
    proof fn lemma_le() {
    }
}

impl AssertLe<24> for U<2> {
    proof fn lemma_le() {
    }
}

impl AssertLe<25> for U<2> {
    proof fn lemma_le() {
    }
}

impl AssertLe<26> for U<2> {
    proof fn lemma_le() {
    }
}

impl AssertLe<27> for U<2> {
    proof fn lemma_le() {
    }
}

impl AssertLe<28> for U<2> {
    proof fn lemma_le() {
    }
}

impl AssertLe<29> for U<2> {
    proof fn lemma_le() {
    }
}

impl AssertLe<30> for U<2> {
    proof fn lemma_le() {
    }
}

impl AssertLe<31> for U<2> {
    proof fn lemma_le() {
    }
}

impl AssertLe<3> for U<3> {
    proof fn lemma_le() {
    }
}

impl AssertLe<4> for U<3> {
    proof fn lemma_le() {
    }
}

impl AssertLe<5> for U<3> {
    proof fn lemma_le() {
    }
}

impl AssertLe<6> for U<3> {
    proof fn lemma_le() {
    }
}

impl AssertLe<7> for U<3> {
    proof fn lemma_le() {
    }
}

impl AssertLe<8> for U<3> {
    proof fn lemma_le() {
    }
}

impl AssertLe<9> for U<3> {
    proof fn lemma_le() {
    }
}

impl AssertLe<10> for U<3> {
    proof fn lemma_le() {
    }
}

impl AssertLe<11> for U<3> {
    proof fn lemma_le() {
    }
}

impl AssertLe<12> for U<3> {
    proof fn lemma_le() {
    }
}

impl AssertLe<13> for U<3> {
    proof fn lemma_le() {
    }
}

impl AssertLe<14> for U<3> {
    proof fn lemma_le() {
    }
}

impl AssertLe<15> for U<3> {
    proof fn lemma_le() {
    }
}

impl AssertLe<16> for U<3> {
    proof fn lemma_le() {
    }
}

impl AssertLe<17> for U<3> {
    proof fn lemma_le() {
    }
}

impl AssertLe<18> for U<3> {
    proof fn lemma_le() {
    }
}

impl AssertLe<19> for U<3> {
    proof fn lemma_le() {
    }
}

impl AssertLe<20> for U<3> {
    proof fn lemma_le() {
    }
}

impl AssertLe<21> for U<3> {
    proof fn lemma_le() {
    }
}

impl AssertLe<22> for U<3> {
    proof fn lemma_le() {
    }
}

impl AssertLe<23> for U<3> {
    proof fn lemma_le() {
    }
}

impl AssertLe<24> for U<3> {
    proof fn lemma_le() {
    }
}

impl AssertLe<25> for U<3> {
    proof fn lemma_le() {
    }
}

impl AssertLe<26> for U<3> {
    proof fn lemma_le() {
    }
}

impl AssertLe<27> for U<3> {
    proof fn lemma_le() {
    }
}

impl AssertLe<28> for U<3> {
    proof fn lemma_le() {
    }
}

impl AssertLe<29> for U<3> {
    proof fn lemma_le() {
    }
}

impl AssertLe<30> for U<3> {
    proof fn lemma_le() {
    }
}

impl AssertLe<31> for U<3> {
    proof fn lemma_le() {
    }
}

impl AssertLe<4> for U<4> {
    proof fn lemma_le() {
    }
}

impl AssertLe<5> for U<4> {
    proof fn lemma_le() {
    }
}

impl AssertLe<6> for U<4> {
    proof fn lemma_le() {
    }
}

impl AssertLe<7> for U<4> {
    proof fn lemma_le() {
    }
}

impl AssertLe<8> for U<4> {
    proof fn lemma_le() {
    }
}

impl AssertLe<9> for U<4> {
    proof fn lemma_le() {
    }
}

impl AssertLe<10> for U<4> {
    proof fn lemma_le() {
    }
}

impl AssertLe<11> for U<4> {
    proof fn lemma_le() {
    }
}

impl AssertLe<12> for U<4> {
    proof fn lemma_le() {
    }
}

impl AssertLe<13> for U<4> {
    proof fn lemma_le() {
    }
}

impl AssertLe<14> for U<4> {
    proof fn lemma_le() {
    }
}

impl AssertLe<15> for U<4> {
    proof fn lemma_le() {
    }
}

impl AssertLe<16> for U<4> {
    proof fn lemma_le() {
    }
}

impl AssertLe<17> for U<4> {
    proof fn lemma_le() {
    }
}

impl AssertLe<18> for U<4> {
    proof fn lemma_le() {
    }
}

impl AssertLe<19> for U<4> {
    proof fn lemma_le() {
    }
}

impl AssertLe<20> for U<4> {
    proof fn lemma_le() {
    }
}

impl AssertLe<21> for U<4> {
    proof fn lemma_le() {
    }
}

impl AssertLe<22> for U<4> {
    proof fn lemma_le() {
    }
}

impl AssertLe<23> for U<4> {
    proof fn lemma_le() {
    }
}

impl AssertLe<24> for U<4> {
    proof fn lemma_le() {
    }
}

impl AssertLe<25> for U<4> {
    proof fn lemma_le() {
    }
}

impl AssertLe<26> for U<4> {
    proof fn lemma_le() {
    }
}

impl AssertLe<27> for U<4> {
    proof fn lemma_le() {
    }
}

impl AssertLe<28> for U<4> {
    proof fn lemma_le() {
    }
}

impl AssertLe<29> for U<4> {
    proof fn lemma_le() {
    }
}

impl AssertLe<30> for U<4> {
    proof fn lemma_le() {
    }
}

impl AssertLe<31> for U<4> {
    proof fn lemma_le() {
    }
}

impl AssertLe<5> for U<5> {
    proof fn lemma_le() {
    }
}

impl AssertLe<6> for U<5> {
    proof fn lemma_le() {
    }
}

impl AssertLe<7> for U<5> {
    proof fn lemma_le() {
    }
}

impl AssertLe<8> for U<5> {
    proof fn lemma_le() {
    }
}

impl AssertLe<9> for U<5> {
    proof fn lemma_le() {
    }
}

impl AssertLe<10> for U<5> {
    proof fn lemma_le() {
    }
}

impl AssertLe<11> for U<5> {
    proof fn lemma_le() {
    }
}

impl AssertLe<12> for U<5> {
    proof fn lemma_le() {
    }
}

impl AssertLe<13> for U<5> {
    proof fn lemma_le() {
    }
}

impl AssertLe<14> for U<5> {
    proof fn lemma_le() {
    }
}

impl AssertLe<15> for U<5> {
    proof fn lemma_le() {
    }
}

impl AssertLe<16> for U<5> {
    proof fn lemma_le() {
    }
}

impl AssertLe<17> for U<5> {
    proof fn lemma_le() {
    }
}

impl AssertLe<18> for U<5> {
    proof fn lemma_le() {
    }
}

impl AssertLe<19> for U<5> {
    proof fn lemma_le() {
    }
}

impl AssertLe<20> for U<5> {
    proof fn lemma_le() {
    }
}

impl AssertLe<21> for U<5> {
    proof fn lemma_le() {
    }
}

impl AssertLe<22> for U<5> {
    proof fn lemma_le() {
    }
}

impl AssertLe<23> for U<5> {
    proof fn lemma_le() {
    }
}

impl AssertLe<24> for U<5> {
    proof fn lemma_le() {
    }
}

impl AssertLe<25> for U<5> {
    proof fn lemma_le() {
    }
}

impl AssertLe<26> for U<5> {
    proof fn lemma_le() {
    }
}

impl AssertLe<27> for U<5> {
    proof fn lemma_le() {
    }
}

impl AssertLe<28> for U<5> {
    proof fn lemma_le() {
    }
}

impl AssertLe<29> for U<5> {
    proof fn lemma_le() {
    }
}

impl AssertLe<30> for U<5> {
    proof fn lemma_le() {
    }
}

impl AssertLe<31> for U<5> {
    proof fn lemma_le() {
    }
}

impl AssertLe<6> for U<6> {
    proof fn lemma_le() {
    }
}

impl AssertLe<7> for U<6> {
    proof fn lemma_le() {
    }
}

impl AssertLe<8> for U<6> {
    proof fn lemma_le() {
    }
}

impl AssertLe<9> for U<6> {
    proof fn lemma_le() {
    }
}

impl AssertLe<10> for U<6> {
    proof fn lemma_le() {
    }
}

impl AssertLe<11> for U<6> {
    proof fn lemma_le() {
    }
}

impl AssertLe<12> for U<6> {
    proof fn lemma_le() {
    }
}

impl AssertLe<13> for U<6> {
    proof fn lemma_le() {
    }
}

impl AssertLe<14> for U<6> {
    proof fn lemma_le() {
    }
}

impl AssertLe<15> for U<6> {
    proof fn lemma_le() {
    }
}

impl AssertLe<16> for U<6> {
    proof fn lemma_le() {
    }
}

impl AssertLe<17> for U<6> {
    proof fn lemma_le() {
    }
}

impl AssertLe<18> for U<6> {
    proof fn lemma_le() {
    }
}

impl AssertLe<19> for U<6> {
    proof fn lemma_le() {
    }
}

impl AssertLe<20> for U<6> {
    proof fn lemma_le() {
    }
}

impl AssertLe<21> for U<6> {
    proof fn lemma_le() {
    }
}

impl AssertLe<22> for U<6> {
    proof fn lemma_le() {
    }
}

impl AssertLe<23> for U<6> {
    proof fn lemma_le() {
    }
}

impl AssertLe<24> for U<6> {
    proof fn lemma_le() {
    }
}

impl AssertLe<25> for U<6> {
    proof fn lemma_le() {
    }
}

impl AssertLe<26> for U<6> {
    proof fn lemma_le() {
    }
}

impl AssertLe<27> for U<6> {
    proof fn lemma_le() {
    }
}

impl AssertLe<28> for U<6> {
    proof fn lemma_le() {
    }
}

impl AssertLe<29> for U<6> {
    proof fn lemma_le() {
    }
}

impl AssertLe<30> for U<6> {
    proof fn lemma_le() {
    }
}

impl AssertLe<31> for U<6> {
    proof fn lemma_le() {
    }
}

impl AssertLe<7> for U<7> {
    proof fn lemma_le() {
    }
}

impl AssertLe<8> for U<7> {
    proof fn lemma_le() {
    }
}

impl AssertLe<9> for U<7> {
    proof fn lemma_le() {
    }
}

impl AssertLe<10> for U<7> {
    proof fn lemma_le() {
    }
}

impl AssertLe<11> for U<7> {
    proof fn lemma_le() {
    }
}

impl AssertLe<12> for U<7> {
    proof fn lemma_le() {
    }
}

impl AssertLe<13> for U<7> {
    proof fn lemma_le() {
    }
}

impl AssertLe<14> for U<7> {
    proof fn lemma_le() {
    }
}

impl AssertLe<15> for U<7> {
    proof fn lemma_le() {
    }
}

impl AssertLe<16> for U<7> {
    proof fn lemma_le() {
    }
}

impl AssertLe<17> for U<7> {
    proof fn lemma_le() {
    }
}

impl AssertLe<18> for U<7> {
    proof fn lemma_le() {
    }
}

impl AssertLe<19> for U<7> {
    proof fn lemma_le() {
    }
}

impl AssertLe<20> for U<7> {
    proof fn lemma_le() {
    }
}

impl AssertLe<21> for U<7> {
    proof fn lemma_le() {
    }
}

impl AssertLe<22> for U<7> {
    proof fn lemma_le() {
    }
}

impl AssertLe<23> for U<7> {
    proof fn lemma_le() {
    }
}

impl AssertLe<24> for U<7> {
    proof fn lemma_le() {
    }
}

impl AssertLe<25> for U<7> {
    proof fn lemma_le() {
    }
}

impl AssertLe<26> for U<7> {
    proof fn lemma_le() {
    }
}

impl AssertLe<27> for U<7> {
    proof fn lemma_le() {
    }
}

impl AssertLe<28> for U<7> {
    proof fn lemma_le() {
    }
}

impl AssertLe<29> for U<7> {
    proof fn lemma_le() {
    }
}

impl AssertLe<30> for U<7> {
    proof fn lemma_le() {
    }
}

impl AssertLe<31> for U<7> {
    proof fn lemma_le() {
    }
}

impl AssertLe<8> for U<8> {
    proof fn lemma_le() {
    }
}

impl AssertLe<9> for U<8> {
    proof fn lemma_le() {
    }
}

impl AssertLe<10> for U<8> {
    proof fn lemma_le() {
    }
}

impl AssertLe<11> for U<8> {
    proof fn lemma_le() {
    }
}

impl AssertLe<12> for U<8> {
    proof fn lemma_le() {
    }
}

impl AssertLe<13> for U<8> {
    proof fn lemma_le() {
    }
}

impl AssertLe<14> for U<8> {
    proof fn lemma_le() {
    }
}

impl AssertLe<15> for U<8> {
    proof fn lemma_le() {
    }
}

impl AssertLe<16> for U<8> {
    proof fn lemma_le() {
    }
}

impl AssertLe<17> for U<8> {
    proof fn lemma_le() {
    }
}

impl AssertLe<18> for U<8> {
    proof fn lemma_le() {
    }
}

impl AssertLe<19> for U<8> {
    proof fn lemma_le() {
    }
}

impl AssertLe<20> for U<8> {
    proof fn lemma_le() {
    }
}

impl AssertLe<21> for U<8> {
    proof fn lemma_le() {
    }
}

impl AssertLe<22> for U<8> {
    proof fn lemma_le() {
    }
}

impl AssertLe<23> for U<8> {
    proof fn lemma_le() {
    }
}

impl AssertLe<24> for U<8> {
    proof fn lemma_le() {
    }
}

impl AssertLe<25> for U<8> {
    proof fn lemma_le() {
    }
}

impl AssertLe<26> for U<8> {
    proof fn lemma_le() {
    }
}

impl AssertLe<27> for U<8> {
    proof fn lemma_le() {
    }
}

impl AssertLe<28> for U<8> {
    proof fn lemma_le() {
    }
}

impl AssertLe<29> for U<8> {
    proof fn lemma_le() {
    }
}

impl AssertLe<30> for U<8> {
    proof fn lemma_le() {
    }
}

impl AssertLe<31> for U<8> {
    proof fn lemma_le() {
    }
}

impl AssertLe<9> for U<9> {
    proof fn lemma_le() {
    }
}

impl AssertLe<10> for U<9> {
    proof fn lemma_le() {
    }
}

impl AssertLe<11> for U<9> {
    proof fn lemma_le() {
    }
}

impl AssertLe<12> for U<9> {
    proof fn lemma_le() {
    }
}

impl AssertLe<13> for U<9> {
    proof fn lemma_le() {
    }
}

impl AssertLe<14> for U<9> {
    proof fn lemma_le() {
    }
}

impl AssertLe<15> for U<9> {
    proof fn lemma_le() {
    }
}

impl AssertLe<16> for U<9> {
    proof fn lemma_le() {
    }
}

impl AssertLe<17> for U<9> {
    proof fn lemma_le() {
    }
}

impl AssertLe<18> for U<9> {
    proof fn lemma_le() {
    }
}

impl AssertLe<19> for U<9> {
    proof fn lemma_le() {
    }
}

impl AssertLe<20> for U<9> {
    proof fn lemma_le() {
    }
}

impl AssertLe<21> for U<9> {
    proof fn lemma_le() {
    }
}

impl AssertLe<22> for U<9> {
    proof fn lemma_le() {
    }
}

impl AssertLe<23> for U<9> {
    proof fn lemma_le() {
    }
}

impl AssertLe<24> for U<9> {
    proof fn lemma_le() {
    }
}

impl AssertLe<25> for U<9> {
    proof fn lemma_le() {
    }
}

impl AssertLe<26> for U<9> {
    proof fn lemma_le() {
    }
}

impl AssertLe<27> for U<9> {
    proof fn lemma_le() {
    }
}

impl AssertLe<28> for U<9> {
    proof fn lemma_le() {
    }
}

impl AssertLe<29> for U<9> {
    proof fn lemma_le() {
    }
}

impl AssertLe<30> for U<9> {
    proof fn lemma_le() {
    }
}

impl AssertLe<31> for U<9> {
    proof fn lemma_le() {
    }
}

impl AssertLe<10> for U<10> {
    proof fn lemma_le() {
    }
}

impl AssertLe<11> for U<10> {
    proof fn lemma_le() {
    }
}

impl AssertLe<12> for U<10> {
    proof fn lemma_le() {
    }
}

impl AssertLe<13> for U<10> {
    proof fn lemma_le() {
    }
}

impl AssertLe<14> for U<10> {
    proof fn lemma_le() {
    }
}

impl AssertLe<15> for U<10> {
    proof fn lemma_le() {
    }
}

impl AssertLe<16> for U<10> {
    proof fn lemma_le() {
    }
}

impl AssertLe<17> for U<10> {
    proof fn lemma_le() {
    }
}

impl AssertLe<18> for U<10> {
    proof fn lemma_le() {
    }
}

impl AssertLe<19> for U<10> {
    proof fn lemma_le() {
    }
}

impl AssertLe<20> for U<10> {
    proof fn lemma_le() {
    }
}

impl AssertLe<21> for U<10> {
    proof fn lemma_le() {
    }
}

impl AssertLe<22> for U<10> {
    proof fn lemma_le() {
    }
}

impl AssertLe<23> for U<10> {
    proof fn lemma_le() {
    }
}

impl AssertLe<24> for U<10> {
    proof fn lemma_le() {
    }
}

impl AssertLe<25> for U<10> {
    proof fn lemma_le() {
    }
}

impl AssertLe<26> for U<10> {
    proof fn lemma_le() {
    }
}

impl AssertLe<27> for U<10> {
    proof fn lemma_le() {
    }
}

impl AssertLe<28> for U<10> {
    proof fn lemma_le() {
    }
}

impl AssertLe<29> for U<10> {
    proof fn lemma_le() {
    }
}

impl AssertLe<30> for U<10> {
    proof fn lemma_le() {
    }
}

impl AssertLe<31> for U<10> {
    proof fn lemma_le() {
    }
}

impl AssertLe<11> for U<11> {
    proof fn lemma_le() {
    }
}

impl AssertLe<12> for U<11> {
    proof fn lemma_le() {
    }
}

impl AssertLe<13> for U<11> {
    proof fn lemma_le() {
    }
}

impl AssertLe<14> for U<11> {
    proof fn lemma_le() {
    }
}

impl AssertLe<15> for U<11> {
    proof fn lemma_le() {
    }
}

impl AssertLe<16> for U<11> {
    proof fn lemma_le() {
    }
}

impl AssertLe<17> for U<11> {
    proof fn lemma_le() {
    }
}

impl AssertLe<18> for U<11> {
    proof fn lemma_le() {
    }
}

impl AssertLe<19> for U<11> {
    proof fn lemma_le() {
    }
}

impl AssertLe<20> for U<11> {
    proof fn lemma_le() {
    }
}

impl AssertLe<21> for U<11> {
    proof fn lemma_le() {
    }
}

impl AssertLe<22> for U<11> {
    proof fn lemma_le() {
    }
}

impl AssertLe<23> for U<11> {
    proof fn lemma_le() {
    }
}

impl AssertLe<24> for U<11> {
    proof fn lemma_le() {
    }
}

impl AssertLe<25> for U<11> {
    proof fn lemma_le() {
    }
}

impl AssertLe<26> for U<11> {
    proof fn lemma_le() {
    }
}

impl AssertLe<27> for U<11> {
    proof fn lemma_le() {
    }
}

impl AssertLe<28> for U<11> {
    proof fn lemma_le() {
    }
}

impl AssertLe<29> for U<11> {
    proof fn lemma_le() {
    }
}

impl AssertLe<30> for U<11> {
    proof fn lemma_le() {
    }
}

impl AssertLe<31> for U<11> {
    proof fn lemma_le() {
    }
}

impl AssertLe<12> for U<12> {
    proof fn lemma_le() {
    }
}

impl AssertLe<13> for U<12> {
    proof fn lemma_le() {
    }
}

impl AssertLe<14> for U<12> {
    proof fn lemma_le() {
    }
}

impl AssertLe<15> for U<12> {
    proof fn lemma_le() {
    }
}

impl AssertLe<16> for U<12> {
    proof fn lemma_le() {
    }
}

impl AssertLe<17> for U<12> {
    proof fn lemma_le() {
    }
}

impl AssertLe<18> for U<12> {
    proof fn lemma_le() {
    }
}

impl AssertLe<19> for U<12> {
    proof fn lemma_le() {
    }
}

impl AssertLe<20> for U<12> {
    proof fn lemma_le() {
    }
}

impl AssertLe<21> for U<12> {
    proof fn lemma_le() {
    }
}

impl AssertLe<22> for U<12> {
    proof fn lemma_le() {
    }
}

impl AssertLe<23> for U<12> {
    proof fn lemma_le() {
    }
}

impl AssertLe<24> for U<12> {
    proof fn lemma_le() {
    }
}

impl AssertLe<25> for U<12> {
    proof fn lemma_le() {
    }
}

impl AssertLe<26> for U<12> {
    proof fn lemma_le() {
    }
}

impl AssertLe<27> for U<12> {
    proof fn lemma_le() {
    }
}

impl AssertLe<28> for U<12> {
    proof fn lemma_le() {
    }
}

impl AssertLe<29> for U<12> {
    proof fn lemma_le() {
    }
}

impl AssertLe<30> for U<12> {
    proof fn lemma_le() {
    }
}

impl AssertLe<31> for U<12> {
    proof fn lemma_le() {
    }
}

impl AssertLe<13> for U<13> {
    proof fn lemma_le() {
    }
}

impl AssertLe<14> for U<13> {
    proof fn lemma_le() {
    }
}

impl AssertLe<15> for U<13> {
    proof fn lemma_le() {
    }
}

impl AssertLe<16> for U<13> {
    proof fn lemma_le() {
    }
}

impl AssertLe<17> for U<13> {
    proof fn lemma_le() {
    }
}

impl AssertLe<18> for U<13> {
    proof fn lemma_le() {
    }
}

impl AssertLe<19> for U<13> {
    proof fn lemma_le() {
    }
}

impl AssertLe<20> for U<13> {
    proof fn lemma_le() {
    }
}

impl AssertLe<21> for U<13> {
    proof fn lemma_le() {
    }
}

impl AssertLe<22> for U<13> {
    proof fn lemma_le() {
    }
}

impl AssertLe<23> for U<13> {
    proof fn lemma_le() {
    }
}

impl AssertLe<24> for U<13> {
    proof fn lemma_le() {
    }
}

impl AssertLe<25> for U<13> {
    proof fn lemma_le() {
    }
}

impl AssertLe<26> for U<13> {
    proof fn lemma_le() {
    }
}

impl AssertLe<27> for U<13> {
    proof fn lemma_le() {
    }
}

impl AssertLe<28> for U<13> {
    proof fn lemma_le() {
    }
}

impl AssertLe<29> for U<13> {
    proof fn lemma_le() {
    }
}

impl AssertLe<30> for U<13> {
    proof fn lemma_le() {
    }
}

impl AssertLe<31> for U<13> {
    proof fn lemma_le() {
    }
}

impl AssertLe<14> for U<14> {
    proof fn lemma_le() {
    }
}

impl AssertLe<15> for U<14> {
    proof fn lemma_le() {
    }
}

impl AssertLe<16> for U<14> {
    proof fn lemma_le() {
    }
}

impl AssertLe<17> for U<14> {
    proof fn lemma_le() {
    }
}

impl AssertLe<18> for U<14> {
    proof fn lemma_le() {
    }
}

impl AssertLe<19> for U<14> {
    proof fn lemma_le() {
    }
}

impl AssertLe<20> for U<14> {
    proof fn lemma_le() {
    }
}

impl AssertLe<21> for U<14> {
    proof fn lemma_le() {
    }
}

impl AssertLe<22> for U<14> {
    proof fn lemma_le() {
    }
}

impl AssertLe<23> for U<14> {
    proof fn lemma_le() {
    }
}

impl AssertLe<24> for U<14> {
    proof fn lemma_le() {
    }
}

impl AssertLe<25> for U<14> {
    proof fn lemma_le() {
    }
}

impl AssertLe<26> for U<14> {
    proof fn lemma_le() {
    }
}

impl AssertLe<27> for U<14> {
    proof fn lemma_le() {
    }
}

impl AssertLe<28> for U<14> {
    proof fn lemma_le() {
    }
}

impl AssertLe<29> for U<14> {
    proof fn lemma_le() {
    }
}

impl AssertLe<30> for U<14> {
    proof fn lemma_le() {
    }
}

impl AssertLe<31> for U<14> {
    proof fn lemma_le() {
    }
}

impl AssertLe<15> for U<15> {
    proof fn lemma_le() {
    }
}

impl AssertLe<16> for U<15> {
    proof fn lemma_le() {
    }
}

impl AssertLe<17> for U<15> {
    proof fn lemma_le() {
    }
}

impl AssertLe<18> for U<15> {
    proof fn lemma_le() {
    }
}

impl AssertLe<19> for U<15> {
    proof fn lemma_le() {
    }
}

impl AssertLe<20> for U<15> {
    proof fn lemma_le() {
    }
}

impl AssertLe<21> for U<15> {
    proof fn lemma_le() {
    }
}

impl AssertLe<22> for U<15> {
    proof fn lemma_le() {
    }
}

impl AssertLe<23> for U<15> {
    proof fn lemma_le() {
    }
}

impl AssertLe<24> for U<15> {
    proof fn lemma_le() {
    }
}

impl AssertLe<25> for U<15> {
    proof fn lemma_le() {
    }
}

impl AssertLe<26> for U<15> {
    proof fn lemma_le() {
    }
}

impl AssertLe<27> for U<15> {
    proof fn lemma_le() {
    }
}

impl AssertLe<28> for U<15> {
    proof fn lemma_le() {
    }
}

impl AssertLe<29> for U<15> {
    proof fn lemma_le() {
    }
}

impl AssertLe<30> for U<15> {
    proof fn lemma_le() {
    }
}

impl AssertLe<31> for U<15> {
    proof fn lemma_le() {
    }
}

impl AssertLe<16> for U<16> {
    proof fn lemma_le() {
    }
}

impl AssertLe<17> for U<16> {
    proof fn lemma_le() {
    }
}

impl AssertLe<18> for U<16> {
    proof fn lemma_le() {
    }
}

impl AssertLe<19> for U<16> {
    proof fn lemma_le() {
    }
}

impl AssertLe<20> for U<16> {
    proof fn lemma_le() {
    }
}

impl AssertLe<21> for U<16> {
    proof fn lemma_le() {
    }
}

impl AssertLe<22> for U<16> {
    proof fn lemma_le() {
    }
}

impl AssertLe<23> for U<16> {
    proof fn lemma_le() {
    }
}

impl AssertLe<24> for U<16> {
    proof fn lemma_le() {
    }
}

impl AssertLe<25> for U<16> {
    proof fn lemma_le() {
    }
}

impl AssertLe<26> for U<16> {
    proof fn lemma_le() {
    }
}

impl AssertLe<27> for U<16> {
    proof fn lemma_le() {
    }
}

impl AssertLe<28> for U<16> {
    proof fn lemma_le() {
    }
}

impl AssertLe<29> for U<16> {
    proof fn lemma_le() {
    }
}

impl AssertLe<30> for U<16> {
    proof fn lemma_le() {
    }
}

impl AssertLe<31> for U<16> {
    proof fn lemma_le() {
    }
}

impl AssertLe<17> for U<17> {
    proof fn lemma_le() {
    }
}

impl AssertLe<18> for U<17> {
    proof fn lemma_le() {
    }
}

impl AssertLe<19> for U<17> {
    proof fn lemma_le() {
    }
}

impl AssertLe<20> for U<17> {
    proof fn lemma_le() {
    }
}

impl AssertLe<21> for U<17> {
    proof fn lemma_le() {
    }
}

impl AssertLe<22> for U<17> {
    proof fn lemma_le() {
    }
}

impl AssertLe<23> for U<17> {
    proof fn lemma_le() {
    }
}

impl AssertLe<24> for U<17> {
    proof fn lemma_le() {
    }
}

impl AssertLe<25> for U<17> {
    proof fn lemma_le() {
    }
}

impl AssertLe<26> for U<17> {
    proof fn lemma_le() {
    }
}

impl AssertLe<27> for U<17> {
    proof fn lemma_le() {
    }
}

impl AssertLe<28> for U<17> {
    proof fn lemma_le() {
    }
}

impl AssertLe<29> for U<17> {
    proof fn lemma_le() {
    }
}

impl AssertLe<30> for U<17> {
    proof fn lemma_le() {
    }
}

impl AssertLe<31> for U<17> {
    proof fn lemma_le() {
    }
}

impl AssertLe<18> for U<18> {
    proof fn lemma_le() {
    }
}

impl AssertLe<19> for U<18> {
    proof fn lemma_le() {
    }
}

impl AssertLe<20> for U<18> {
    proof fn lemma_le() {
    }
}

impl AssertLe<21> for U<18> {
    proof fn lemma_le() {
    }
}

impl AssertLe<22> for U<18> {
    proof fn lemma_le() {
    }
}

impl AssertLe<23> for U<18> {
    proof fn lemma_le() {
    }
}

impl AssertLe<24> for U<18> {
    proof fn lemma_le() {
    }
}

impl AssertLe<25> for U<18> {
    proof fn lemma_le() {
    }
}

impl AssertLe<26> for U<18> {
    proof fn lemma_le() {
    }
}

impl AssertLe<27> for U<18> {
    proof fn lemma_le() {
    }
}

impl AssertLe<28> for U<18> {
    proof fn lemma_le() {
    }
}

impl AssertLe<29> for U<18> {
    proof fn lemma_le() {
    }
}

impl AssertLe<30> for U<18> {
    proof fn lemma_le() {
    }
}

impl AssertLe<31> for U<18> {
    proof fn lemma_le() {
    }
}

impl AssertLe<19> for U<19> {
    proof fn lemma_le() {
    }
}

impl AssertLe<20> for U<19> {
    proof fn lemma_le() {
    }
}

impl AssertLe<21> for U<19> {
    proof fn lemma_le() {
    }
}

impl AssertLe<22> for U<19> {
    proof fn lemma_le() {
    }
}

impl AssertLe<23> for U<19> {
    proof fn lemma_le() {
    }
}

impl AssertLe<24> for U<19> {
    proof fn lemma_le() {
    }
}

impl AssertLe<25> for U<19> {
    proof fn lemma_le() {
    }
}

impl AssertLe<26> for U<19> {
    proof fn lemma_le() {
    }
}

impl AssertLe<27> for U<19> {
    proof fn lemma_le() {
    }
}

impl AssertLe<28> for U<19> {
    proof fn lemma_le() {
    }
}

impl AssertLe<29> for U<19> {
    proof fn lemma_le() {
    }
}

impl AssertLe<30> for U<19> {
    proof fn lemma_le() {
    }
}

impl AssertLe<31> for U<19> {
    proof fn lemma_le() {
    }
}

impl AssertLe<20> for U<20> {
    proof fn lemma_le() {
    }
}

impl AssertLe<21> for U<20> {
    proof fn lemma_le() {
    }
}

impl AssertLe<22> for U<20> {
    proof fn lemma_le() {
    }
}

impl AssertLe<23> for U<20> {
    proof fn lemma_le() {
    }
}

impl AssertLe<24> for U<20> {
    proof fn lemma_le() {
    }
}

impl AssertLe<25> for U<20> {
    proof fn lemma_le() {
    }
}

impl AssertLe<26> for U<20> {
    proof fn lemma_le() {
    }
}

impl AssertLe<27> for U<20> {
    proof fn lemma_le() {
    }
}

impl AssertLe<28> for U<20> {
    proof fn lemma_le() {
    }
}

impl AssertLe<29> for U<20> {
    proof fn lemma_le() {
    }
}

impl AssertLe<30> for U<20> {
    proof fn lemma_le() {
    }
}

impl AssertLe<31> for U<20> {
    proof fn lemma_le() {
    }
}

impl AssertLe<21> for U<21> {
    proof fn lemma_le() {
    }
}

impl AssertLe<22> for U<21> {
    proof fn lemma_le() {
    }
}

impl AssertLe<23> for U<21> {
    proof fn lemma_le() {
    }
}

impl AssertLe<24> for U<21> {
    proof fn lemma_le() {
    }
}

impl AssertLe<25> for U<21> {
    proof fn lemma_le() {
    }
}

impl AssertLe<26> for U<21> {
    proof fn lemma_le() {
    }
}

impl AssertLe<27> for U<21> {
    proof fn lemma_le() {
    }
}

impl AssertLe<28> for U<21> {
    proof fn lemma_le() {
    }
}

impl AssertLe<29> for U<21> {
    proof fn lemma_le() {
    }
}

impl AssertLe<30> for U<21> {
    proof fn lemma_le() {
    }
}

impl AssertLe<31> for U<21> {
    proof fn lemma_le() {
    }
}

impl AssertLe<22> for U<22> {
    proof fn lemma_le() {
    }
}

impl AssertLe<23> for U<22> {
    proof fn lemma_le() {
    }
}

impl AssertLe<24> for U<22> {
    proof fn lemma_le() {
    }
}

impl AssertLe<25> for U<22> {
    proof fn lemma_le() {
    }
}

impl AssertLe<26> for U<22> {
    proof fn lemma_le() {
    }
}

impl AssertLe<27> for U<22> {
    proof fn lemma_le() {
    }
}

impl AssertLe<28> for U<22> {
    proof fn lemma_le() {
    }
}

impl AssertLe<29> for U<22> {
    proof fn lemma_le() {
    }
}

impl AssertLe<30> for U<22> {
    proof fn lemma_le() {
    }
}

impl AssertLe<31> for U<22> {
    proof fn lemma_le() {
    }
}

impl AssertLe<23> for U<23> {
    proof fn lemma_le() {
    }
}

impl AssertLe<24> for U<23> {
    proof fn lemma_le() {
    }
}

impl AssertLe<25> for U<23> {
    proof fn lemma_le() {
    }
}

impl AssertLe<26> for U<23> {
    proof fn lemma_le() {
    }
}

impl AssertLe<27> for U<23> {
    proof fn lemma_le() {
    }
}

impl AssertLe<28> for U<23> {
    proof fn lemma_le() {
    }
}

impl AssertLe<29> for U<23> {
    proof fn lemma_le() {
    }
}

impl AssertLe<30> for U<23> {
    proof fn lemma_le() {
    }
}

impl AssertLe<31> for U<23> {
    proof fn lemma_le() {
    }
}

impl AssertLe<24> for U<24> {
    proof fn lemma_le() {
    }
}

impl AssertLe<25> for U<24> {
    proof fn lemma_le() {
    }
}

impl AssertLe<26> for U<24> {
    proof fn lemma_le() {
    }
}

impl AssertLe<27> for U<24> {
    proof fn lemma_le() {
    }
}

impl AssertLe<28> for U<24> {
    proof fn lemma_le() {
    }
}

impl AssertLe<29> for U<24> {
    proof fn lemma_le() {
    }
}

impl AssertLe<30> for U<24> {
    proof fn lemma_le() {
    }
}

impl AssertLe<31> for U<24> {
    proof fn lemma_le() {
    }
}

impl AssertLe<25> for U<25> {
    proof fn lemma_le() {
    }
}

impl AssertLe<26> for U<25> {
    proof fn lemma_le() {
    }
}

impl AssertLe<27> for U<25> {
    proof fn lemma_le() {
    }
}

impl AssertLe<28> for U<25> {
    proof fn lemma_le() {
    }
}

impl AssertLe<29> for U<25> {
    proof fn lemma_le() {
    }
}

impl AssertLe<30> for U<25> {
    proof fn lemma_le() {
    }
}

impl AssertLe<31> for U<25> {
    proof fn lemma_le() {
    }
}

impl AssertLe<26> for U<26> {
    proof fn lemma_le() {
    }
}

impl AssertLe<27> for U<26> {
    proof fn lemma_le() {
    }
}

impl AssertLe<28> for U<26> {
    proof fn lemma_le() {
    }
}

impl AssertLe<29> for U<26> {
    proof fn lemma_le() {
    }
}

impl AssertLe<30> for U<26> {
    proof fn lemma_le() {
    }
}

impl AssertLe<31> for U<26> {
    proof fn lemma_le() {
    }
}

impl AssertLe<27> for U<27> {
    proof fn lemma_le() {
    }
}

impl AssertLe<28> for U<27> {
    proof fn lemma_le() {
    }
}

impl AssertLe<29> for U<27> {
    proof fn lemma_le() {
    }
}

impl AssertLe<30> for U<27> {
    proof fn lemma_le() {
    }
}

impl AssertLe<31> for U<27> {
    proof fn lemma_le() {
    }
}

impl AssertLe<28> for U<28> {
    proof fn lemma_le() {
    }
}

impl AssertLe<29> for U<28> {
    proof fn lemma_le() {
    }
}

impl AssertLe<30> for U<28> {
    proof fn lemma_le() {
    }
}

impl AssertLe<31> for U<28> {
    proof fn lemma_le() {
    }
}

impl AssertLe<29> for U<29> {
    proof fn lemma_le() {
    }
}

impl AssertLe<30> for U<29> {
    proof fn lemma_le() {
    }
}

impl AssertLe<31> for U<29> {
    proof fn lemma_le() {
    }
}

impl AssertLe<30> for U<30> {
    proof fn lemma_le() {
    }
}

impl AssertLe<31> for U<30> {
    proof fn lemma_le() {
    }
}

impl AssertLe<31> for U<31> {
    proof fn lemma_le() {
    }
}

} // verus!
