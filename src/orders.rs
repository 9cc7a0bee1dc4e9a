use vstd::prelude::*;
use crate::error::AppError;
use crate::template::OrderTemplate;
use crate::text::same_text;
use crate::types::PRICE_SCALE;

verus! {

/// The templates kept in a file, in insertion order.
pub struct OrderTemplateStorage {
    pub templates: Vec<OrderTemplate>,
}

impl OrderTemplateStorage {
    /// No template.
    pub fn new() -> (r: OrderTemplateStorage)
        ensures
            r.templates@.len() == 0,
    {
        OrderTemplateStorage { templates: Vec::new() }
    }

    /// Appends a template.
    pub fn add_template(&mut self, template: OrderTemplate)
        ensures
            final(self).templates@ == old(self).templates@.push(template),
    {
        self.templates.push(template);
    }

    /// Replaces the first template with the same id; not-found when none.
    pub fn update_template(&mut self, template: OrderTemplate) -> (r: Result<(), AppError>)
        ensures
            r is Ok <==> exists|i: int| 0 <= i < old(self).templates@.len()
                && (#[trigger] old(self).templates@[i]).id@ == template.id@,
            r matches Err(e) ==> e is NotFound && final(self).templates@ == old(self).templates@,
            r is Ok ==> exists|i: int| 0 <= i < old(self).templates@.len()
                && old(self).templates@[i].id@ == template.id@
                && (forall|j: int| 0 <= j < i ==> (#[trigger] old(self).templates@[j]).id@ != template.id@)
                && final(self).templates@ == old(self).templates@.update(i, template),
    {
        let mut i: usize = 0;
        while i < self.templates.len()
            invariant
                i <= self.templates@.len(),
                self.templates@ == old(self).templates@,
                forall|j: int| 0 <= j < i ==> (#[trigger] self.templates@[j]).id@ != template.id@,
            decreases self.templates@.len() - i,
        {
            if same_text(self.templates[i].id.as_str(), template.id.as_str()) {
                self.templates.set(i, template);
                return Ok(());
            }
            i = i + 1;
        }
        Err(AppError::NotFound("Template not found".to_string()))
    }

    /// Removes every template with id `template_id`; not-found when there
    /// was none.
    pub fn remove_template(&mut self, template_id: &str) -> (r: Result<(), AppError>)
        ensures
            final(self).templates@ == old(self).templates@.filter(|t: OrderTemplate| t.id@ != template_id@),
            r is Ok <==> exists|i: int| 0 <= i < old(self).templates@.len()
                && (#[trigger] old(self).templates@[i]).id@ == template_id@,
            r matches Err(e) ==> e is NotFound,
    {
        let ghost keep = |t: OrderTemplate| t.id@ != template_id@;
        let mut kept: Vec<OrderTemplate> = Vec::new();
        let mut found = false;
        let n = self.templates.len();
        let mut rest: Vec<OrderTemplate> = Vec::new();
        std::mem::swap(&mut self.templates, &mut rest);
        let ghost all = rest@;
        let mut i: usize = 0;
        while i < n
            invariant
                n == all.len(),
                i <= n,
                keep == (|t: OrderTemplate| t.id@ != template_id@),
                rest@ == all.subrange(i as int, n as int),
                kept@ == all.subrange(0, i as int).filter(keep),
                found <==> exists|j: int| 0 <= j < i && (#[trigger] all[j]).id@ == template_id@,
            decreases n - i,
        {
            let t = rest.remove(0);
            assert(t == all[i as int]);
            assert(all.subrange(0, i as int + 1).drop_last() =~= all.subrange(0, i as int));
            proof {
                reveal(Seq::filter);
                assert(all.subrange(0, i as int + 1).last() == t);
            }
            if same_text(t.id.as_str(), template_id) {
                found = true;
            } else {
                kept.push(t);
            }
            i = i + 1;
            assert(rest@ =~= all.subrange(i as int, n as int));
        }
        assert(all.subrange(0, n as int) =~= all);
        self.templates = kept;
        if found {
            Ok(())
        } else {
            Err(AppError::NotFound("Template not found".to_string()))
        }
    }

    /// The first template with id `template_id`, if any.
    pub fn get_template(&self, template_id: &str) -> (r: Option<&OrderTemplate>)
        ensures
            r matches Some(t) ==> exists|i: int| 0 <= i < self.templates@.len()
                && *t == self.templates@[i] && t.id@ == template_id@,
            r is None <==> forall|i: int| 0 <= i < self.templates@.len()
                ==> (#[trigger] self.templates@[i]).id@ != template_id@,
    {
        let mut i: usize = 0;
        while i < self.templates.len()
            invariant
                i <= self.templates@.len(),
                forall|j: int| 0 <= j < i ==> (#[trigger] self.templates@[j]).id@ != template_id@,
            decreases self.templates@.len() - i,
        {
            if same_text(self.templates[i].id.as_str(), template_id) {
                return Some(&self.templates[i]);
            }
            i = i + 1;
        }
        None
    }

    /// All templates, in order.
    pub fn get_all_templates(&self) -> (r: &[OrderTemplate])
        ensures
            r@ == self.templates@,
    {
        self.templates.as_slice()
    }
}

/// Loss at the stop for the whole position: `|limit - stop| * quantity`.
pub fn calculate_risk(template: &OrderTemplate) -> (r: i128)
    ensures
        r == (if template.limit_price >= template.stop_price {
            template.limit_price - template.stop_price
        } else {
            template.stop_price - template.limit_price
        }) * template.quantity,
{
    let diff = template.limit_price as i128 - template.stop_price as i128;
    let distance = if diff >= 0 { diff } else { -diff };
    assert(-0x8000_0000_0000_0000_0000_0000_0000_0000 < distance * template.quantity < 0x8000_0000_0000_0000_0000_0000_0000_0000)
        by (nonlinear_arith)
        requires 0 <= distance < 0x1_0000_0000_0000_0000,
            -0x8000_0000_0000_0000 <= template.quantity <= 0x8000_0000_0000_0000;
    distance * template.quantity as i128
}

/// Reward to risk, fixed-point: `|target - limit| / |limit - stop|`, or 0
/// when the stop equals the limit. Rounded down.
pub fn calculate_reward_risk_ratio(template: &OrderTemplate, target_price: i64) -> (r: i128)
    ensures
        r == ({
            let risk = if template.limit_price >= template.stop_price {
                template.limit_price - template.stop_price
            } else {
                template.stop_price - template.limit_price
            };
            let reward = if target_price >= template.limit_price {
                target_price - template.limit_price
            } else {
                template.limit_price - target_price
            };
            if risk > 0 { reward * PRICE_SCALE / risk } else { 0 }
        }),
{
    let d = template.limit_price as i128 - template.stop_price as i128;
    let risk = if d >= 0 { d } else { -d };
    let g = target_price as i128 - template.limit_price as i128;
    let reward = if g >= 0 { g } else { -g };
    if risk > 0 {
        assert(0 <= reward * PRICE_SCALE <= 0x1_0000_0000_0000_0000 * PRICE_SCALE) by (nonlinear_arith)
            requires 0 <= reward <= 0x1_0000_0000_0000_0000;
        reward * PRICE_SCALE as i128 / risk
    } else {
        0
    }
}

/// Value of the position at the limit: `limit * quantity`.
pub fn calculate_position_value(template: &OrderTemplate) -> (r: i128)
    ensures
        r == template.limit_price * template.quantity,
{
    assert(-0x4000_0000_0000_0000_0000_0000_0000_0000 <= template.limit_price * template.quantity
        <= 0x4000_0000_0000_0000_0000_0000_0000_0000) by (nonlinear_arith)
        requires -0x8000_0000_0000_0000 <= template.limit_price <= 0x8000_0000_0000_0000,
            -0x8000_0000_0000_0000 <= template.quantity <= 0x8000_0000_0000_0000;
    template.limit_price as i128 * template.quantity as i128
}

} // verus!
